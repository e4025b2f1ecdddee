//! The decisions of the fleet: which camera a name refers to, which running
//! cameras survive a new configuration, and which push notifications reach a
//! camera.
use vstd::prelude::*;

use crate::config::Config;

verus! {

/// Whether some camera of the configuration has this name.
pub open spec fn named_in(cfg: Config, name: Seq<char>, j: int) -> bool {
    0 <= j < cfg.cameras@.len() && cfg.cameras@[j].name@ == name
}

/// The first camera of the configuration with this name.
pub fn find_camera(config: &Config, name: &String) -> (r: Option<usize>)
    ensures
        r matches Some(i) ==> named_in(*config, name@, i as int) && forall|j: int|
            0 <= j < i ==> !#[trigger] named_in(*config, name@, j),
        r is None ==> forall|j: int| !#[trigger] named_in(*config, name@, j),
{
    let mut i: usize = 0;
    while i < config.cameras.len()
        invariant
            i <= config.cameras@.len(),
            forall|j: int| 0 <= j < i ==> !#[trigger] named_in(*config, name@, j),
        decreases config.cameras@.len() - i,
    {
        if config.cameras[i].name == *name {
            return Some(i);
        }
        i += 1;
    }
    None
}

/// Whether camera `j` of the configuration is enabled and has this name.
pub open spec fn enabled_as(cfg: Config, name: Seq<char>, j: int) -> bool {
    named_in(cfg, name, j) && cfg.cameras@[j].enabled
}

/// The last enabled camera of the configuration with this name: the entry
/// that a running camera of that name is given.
pub fn last_enabled(config: &Config, name: &String) -> (r: Option<usize>)
    ensures
        r matches Some(i) ==> enabled_as(*config, name@, i as int) && forall|j: int|
            i < j ==> !#[trigger] enabled_as(*config, name@, j),
        r is None ==> forall|j: int| !#[trigger] enabled_as(*config, name@, j),
{
    let mut i: usize = config.cameras.len();
    while i > 0
        invariant
            i <= config.cameras@.len(),
            forall|j: int| i <= j ==> !#[trigger] enabled_as(*config, name@, j),
        decreases i,
    {
        i -= 1;
        if config.cameras[i].enabled && config.cameras[i].name == *name {
            return Some(i);
        }
    }
    None
}

/// For a new configuration, what becomes of each running camera: `None` stops
/// it (no enabled camera has its name any more), `Some(j)` keeps it and hands
/// it camera `j` of the new configuration.
pub fn fleet_update(running: &Vec<String>, config: &Config) -> (r: Vec<Option<usize>>)
    ensures
        r@.len() == running@.len(),
        forall|i: int|
            0 <= i < running@.len() ==> match #[trigger] r@[i] {
                Some(j) => enabled_as(*config, running@[i]@, j as int) && forall|k: int|
                    j < k ==> !#[trigger] enabled_as(*config, running@[i]@, k),
                None => forall|k: int| !#[trigger] enabled_as(*config, running@[i]@, k),
            },
{
    let mut out: Vec<Option<usize>> = Vec::new();
    let mut i: usize = 0;
    while i < running.len()
        invariant
            i <= running@.len(),
            out@.len() == i,
            forall|m: int|
                0 <= m < i ==> match #[trigger] out@[m] {
                    Some(j) => enabled_as(*config, running@[m]@, j as int) && forall|k: int|
                        j < k ==> !#[trigger] enabled_as(*config, running@[m]@, k),
                    None => forall|k: int| !#[trigger] enabled_as(*config, running@[m]@, k),
                },
        decreases running@.len() - i,
    {
        let found = last_enabled(config, &running[i]);
        out.push(found);
        i += 1;
    }
    out
}

/// Whether `needle` occurs in `hay` starting at `i`.
pub open spec fn occurs_at(hay: Seq<char>, needle: Seq<char>, i: int) -> bool {
    0 <= i && i + needle.len() <= hay.len() && hay.subrange(i, i + needle.len()) == needle
}

pub open spec fn contains(hay: Seq<char>, needle: Seq<char>) -> bool {
    exists|i: int| occurs_at(hay, needle, i)
}

fn chars_of(s: &str) -> (r: Vec<char>)
    ensures
        r@ == s@,
{
    let n = s.unicode_len();
    let mut out: Vec<char> = Vec::new();
    let mut i: usize = 0;
    while i < n
        invariant
            n == s@.len(),
            i <= n,
            out@ == s@.subrange(0, i as int),
        decreases n - i,
    {
        out.push(s.get_char(i));
        i += 1;
        assert(out@ =~= s@.subrange(0, i as int));
    }
    assert(out@ =~= s@);
    out
}

fn contains_chars(hay: &Vec<char>, needle: &Vec<char>) -> (r: bool)
    ensures
        r == contains(hay@, needle@),
{
    if needle.len() > hay.len() {
        proof {
            assert forall|i: int| !occurs_at(hay@, needle@, i) by {}
        }
        return false;
    }
    if needle.len() == 0 {
        assert(hay@.subrange(0, 0) =~= needle@);
        assert(occurs_at(hay@, needle@, 0));
        return true;
    }
    let hl = hay.len();
    let last = hl - needle.len();
    let mut i: usize = 0;
    while i < last + 1
        invariant
            hl == hay@.len(),
            needle@.len() > 0,
            last == hay@.len() - needle@.len(),
            i <= last + 1,
            forall|k: int| 0 <= k < i ==> !#[trigger] occurs_at(hay@, needle@, k),
        decreases last + 1 - i,
    {
        let mut j: usize = 0;
        let mut same = true;
        while j < needle.len()
            invariant
                hl == hay@.len(),
                i <= last,
                last == hay@.len() - needle@.len(),
                j <= needle@.len(),
                same == forall|m: int| 0 <= m < j ==> hay@[i + m] == needle@[m],
            decreases needle@.len() - j,
        {
            if hay[i + j] != needle[j] {
                same = false;
            }
            j += 1;
        }
        if same {
            assert(hay@.subrange(i as int, i + needle@.len()) =~= needle@);
            assert(occurs_at(hay@, needle@, i as int));
            return true;
        }
        assert(!occurs_at(hay@, needle@, i as int)) by {
            if occurs_at(hay@, needle@, i as int) {
                assert forall|m: int| 0 <= m < needle@.len() implies hay@[i + m] == needle@[m] by {
                    assert(hay@.subrange(i as int, i + needle@.len())[m] == hay@[i + m]);
                }
            }
        }
        i += 1;
    }
    proof {
        assert forall|k: int| !occurs_at(hay@, needle@, k) by {
            if occurs_at(hay@, needle@, k) {
                assert(0 <= k <= last);
            }
        }
    }
    false
}

/// The UID in double quotes, as it appears in a push notification about that camera.
pub open spec fn quoted(uid: Seq<char>) -> Seq<char> {
    seq!['"'] + uid + seq!['"']
}

/// A push notification reaches the camera with this UID when it names the
/// UID in double quotes and differs from the last one forwarded.
pub fn forward_push(last: Option<&String>, message: &String, uid: &str) -> (r: bool)
    ensures
        r == (contains(message@, quoted(uid@)) && match last {
            Some(l) => l@ != message@,
            None => true,
        }),
{
    let same = match last {
        Some(l) => *l == *message,
        None => false,
    };
    if same {
        return false;
    }
    let mut needle: Vec<char> = Vec::new();
    needle.push('"');
    let u = chars_of(uid);
    let mut i: usize = 0;
    while i < u.len()
        invariant
            i <= u@.len(),
            needle@ == seq!['"'] + u@.subrange(0, i as int),
        decreases u@.len() - i,
    {
        needle.push(u[i]);
        i += 1;
        assert(needle@ =~= seq!['"'] + u@.subrange(0, i as int));
    }
    needle.push('"');
    assert(u@.subrange(0, u@.len() as int) =~= u@);
    assert(needle@ =~= quoted(uid@));
    let hay = chars_of(message.as_str());
    contains_chars(&hay, &needle)
}

/// Whether a push notification reports motion: it holds `Motion Alert from`.
pub fn is_motion_alert(message: &String) -> (r: bool)
    ensures
        r == contains(message@, "Motion Alert from"@),
{
    let hay = chars_of(message.as_str());
    let needle = chars_of("Motion Alert from");
    contains_chars(&hay, &needle)
}

} // verus!
