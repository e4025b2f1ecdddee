//! The users command: list, add, change the password of, or delete camera users.
use vstd::prelude::*;
use vstd::string::StringExecFns;

use crate::error::Error;

verus! {

pub struct Opt {
    /// The name of the camera, as in the configuration.
    pub camera: String,
    pub cmd: UserAction,
}

pub enum UserAction {
    List,
    Add { user_name: String, password: String, user_type: UserType },
    Password { user_name: String, password: String },
    Delete { user_name: String },
}

#[derive(Clone, Copy, Debug, PartialEq, Eq, Structural)]
pub enum UserType {
    User,
    Administrator,
}

/// The level that the camera stores for a user type.
pub fn user_level(t: UserType) -> (r: u8)
    ensures
        r == match t {
            UserType::User => 0u8,
            UserType::Administrator => 1u8,
        },
{
    match t {
        UserType::User => 0,
        UserType::Administrator => 1,
    }
}

/// A user as the camera's user list holds it.
#[derive(Clone, Debug, PartialEq, Eq)]
pub struct User {
    /// What to do with the entry: `add`, `modify` or `delete`.
    pub user_set_state: String,
    pub user_name: String,
    pub password: Option<String>,
    pub user_level: u8,
    pub user_id: Option<u32>,
    pub login_state: Option<u32>,
}

/// Whether entry `j` of the list is the user with this name.
pub open spec fn names(users: Seq<User>, name: Seq<char>, j: int) -> bool {
    0 <= j < users.len() && users[j].user_name@ == name
}

fn find_user(users: &Vec<User>, name: &String) -> (r: Option<usize>)
    ensures
        r matches Some(i) ==> names(users@, name@, i as int) && forall|j: int|
            0 <= j < i ==> !#[trigger] names(users@, name@, j),
        r is None ==> forall|j: int| !#[trigger] names(users@, name@, j),
{
    let mut i: usize = 0;
    while i < users.len()
        invariant
            i <= users@.len(),
            forall|j: int| 0 <= j < i ==> !#[trigger] names(users@, name@, j),
        decreases users@.len() - i,
    {
        if users[i].user_name == *name {
            return Some(i);
        }
        i += 1;
    }
    None
}

/// The list to send to add a user: the current list with a new entry marked
/// `add`; refused when a user of that name exists.
pub fn add_user_entry(users: Vec<User>, user_name: String, password: String, user_level: u8) -> (r:
    Result<Vec<User>, Error>)
    ensures
        (exists|j: int| names(users@, user_name@, j)) ==> r == Err::<Vec<User>, Error>(
            Error::Other("User already exists"),
        ),
        (forall|j: int| !#[trigger] names(users@, user_name@, j)) ==> (r matches Ok(v) && v@.len()
            == users@.len() + 1 && v@.subrange(0, users@.len() as int) == users@ && ({
            let u = v@[users@.len() as int];
            &&& u.user_set_state@ == "add"@
            &&& u.user_name@ == user_name@
            &&& u.password matches Some(p) && p@ == password@
            &&& u.user_level == user_level
            &&& u.user_id is None
            &&& u.login_state is None
        })),
{
    if find_user(&users, &user_name).is_some() {
        return Err(Error::Other("User already exists"));
    }
    let mut v = users;
    v.push(
        User {
            user_set_state: String::from_str("add"),
            user_name,
            password: Some(password),
            user_level,
            user_id: None,
            login_state: None,
        },
    );
    assert(v@.subrange(0, users@.len() as int) =~= users@);
    Ok(v)
}

/// The list to send to change a user's password: the first entry of that
/// name is marked `modify` with the new password; refused when there is none.
pub fn modify_user_entry(users: Vec<User>, user_name: String, password: String) -> (r: Result<
    Vec<User>,
    Error,
>)
    ensures
        (forall|j: int| !#[trigger] names(users@, user_name@, j)) ==> r == Err::<Vec<User>, Error>(
            Error::Other("User not found"),
        ),
        (exists|j: int| names(users@, user_name@, j)) ==> (r matches Ok(v) && exists|i: int|
            {
                &&& #[trigger] names(users@, user_name@, i)
                &&& forall|j: int| 0 <= j < i ==> !#[trigger] names(users@, user_name@, j)
                &&& v@.len() == users@.len()
                &&& forall|j: int| 0 <= j < users@.len() && j != i ==> v@[j] == users@[j]
                &&& v@[i].user_set_state@ == "modify"@
                &&& v@[i].password matches Some(p) && p@ == password@
                &&& v@[i].user_name == users@[i].user_name
                &&& v@[i].user_level == users@[i].user_level
                &&& v@[i].user_id == users@[i].user_id
                &&& v@[i].login_state == users@[i].login_state
            }),
{
    match find_user(&users, &user_name) {
        None => Err(Error::Other("User not found")),
        Some(i) => {
            let mut v = users;
            let mut u = v.remove(i);
            u.user_set_state = String::from_str("modify");
            u.password = Some(password);
            let ghost nu = u;
            v.insert(i, u);
            assert(v@ =~= users@.update(i as int, nu));
            assert(names(users@, user_name@, i as int));
            Ok(v)
        },
    }
}

/// The list to send to delete a user: the first entry of that name is
/// marked `delete`; refused when there is none.
pub fn delete_user_entry(users: Vec<User>, user_name: String) -> (r: Result<Vec<User>, Error>)
    ensures
        (forall|j: int| !#[trigger] names(users@, user_name@, j)) ==> r == Err::<Vec<User>, Error>(
            Error::Other("User not found"),
        ),
        (exists|j: int| names(users@, user_name@, j)) ==> (r matches Ok(v) && exists|i: int|
            {
                &&& #[trigger] names(users@, user_name@, i)
                &&& forall|j: int| 0 <= j < i ==> !#[trigger] names(users@, user_name@, j)
                &&& v@.len() == users@.len()
                &&& forall|j: int| 0 <= j < users@.len() && j != i ==> v@[j] == users@[j]
                &&& v@[i].user_set_state@ == "delete"@
                &&& v@[i].password == users@[i].password
                &&& v@[i].user_name == users@[i].user_name
                &&& v@[i].user_level == users@[i].user_level
                &&& v@[i].user_id == users@[i].user_id
                &&& v@[i].login_state == users@[i].login_state
            }),
{
    match find_user(&users, &user_name) {
        None => Err(Error::Other("User not found")),
        Some(i) => {
            let mut v = users;
            let mut u = v.remove(i);
            u.user_set_state = String::from_str("delete");
            let ghost nu = u;
            v.insert(i, u);
            assert(v@ =~= users@.update(i as int, nu));
            assert(names(users@, user_name@, i as int));
            Ok(v)
        },
    }
}

} // verus!
