use vstd::prelude::*;

use crate::models::{Site, User};
use crate::pattern::{pattern_matches, regex_compiles, regex_finds};

verus! {

/// A privilege as loaded for a request: the zone of its site, its record-name pattern and
/// whether it makes the user superuser on that zone.
pub type PrivilegeRow = (String, String, bool);

/// `u` is an enabled user with the given name and key.
pub open spec fn logs_in(u: User, name: Seq<char>, key: Seq<char>) -> bool {
    !u.disabled && u.name@ == name && u.key@ == key
}

/// `users[i]` is the one and only user of `users` that logs in with `name` and `key`.
pub open spec fn sole_login(users: Seq<User>, name: Seq<char>, key: Seq<char>, i: int) -> bool {
    &&& 0 <= i < users.len()
    &&& logs_in(users[i], name, key)
    &&& forall|j: int| 0 <= j < users.len() && j != i ==> !logs_in(#[trigger] users[j], name, key)
}

/// Authentication: the index of the single enabled user with this name and key, or `None`
/// when there is no such user or more than one.
pub fn select_user(users: &Vec<User>, name: &str, key: &str) -> (r: Option<usize>)
    ensures
        r matches Some(i) ==> sole_login(users@, name@, key@, i as int),
        r is None ==> forall|i: int| !sole_login(users@, name@, key@, i),
        r matches Some(i) ==> {
            &&& i < users@.len()
            &&& !users@[i as int].disabled
            &&& users@[i as int].name@ == name@
            &&& users@[i as int].key@ == key@
            &&& forall|j: int|
                #![trigger users@[j]]
                0 <= j < users@.len() && j != i && !users@[j].disabled && users@[j].name@ == name@
                    ==> users@[j].key@ != key@
        },
        r is None ==> forall|i: int|
            #![trigger users@[i]]
            0 <= i < users@.len() && !users@[i].disabled && users@[i].name@ == name@ && users@[i].key@
                == key@ ==> exists|j: int|
                #![trigger users@[j]]
                0 <= j < users@.len() && j != i && !users@[j].disabled && users@[j].name@ == name@
                    && users@[j].key@ == key@,
{
    let r = select_user_index(users, name, key);
    proof {
        if r is None {
            assert forall|i: int|
                #![trigger users@[i]]
                0 <= i < users@.len() && !users@[i].disabled && users@[i].name@ == name@ && users@[i].key@
                    == key@ implies exists|j: int|
                #![trigger users@[j]]
                0 <= j < users@.len() && j != i && !users@[j].disabled && users@[j].name@ == name@
                    && users@[j].key@ == key@ by {
                assert(!sole_login(users@, name@, key@, i));
                assert(logs_in(users@[i], name@, key@));
                let j = choose|j: int| 0 <= j < users@.len() && j != i && logs_in(#[trigger] users@[j], name@, key@);
                assert(users@[j].name@ == name@);
            }
        }
        if let Some(i) = r {
            assert forall|j: int|
                #![trigger users@[j]]
                0 <= j < users@.len() && j != i && !users@[j].disabled && users@[j].name@ == name@
                    implies users@[j].key@ != key@ by {
                assert(!logs_in(users@[j], name@, key@));
            }
        }
    }
    r
}

fn select_user_index(users: &Vec<User>, name: &str, key: &str) -> (r: Option<usize>)
    ensures
        r matches Some(i) ==> sole_login(users@, name@, key@, i as int),
        r is None ==> forall|i: int| !sole_login(users@, name@, key@, i),
{
    let wanted_name = String::from_str(name);
    let wanted_key = String::from_str(key);
    let mut found: Option<usize> = None;
    let mut twice = false;
    let n = users.len();
    let mut i: usize = 0;
    while i < n
        invariant
            n == users@.len(),
            i <= n,
            wanted_name@ == name@,
            wanted_key@ == key@,
            !twice ==> match found {
                None => forall|j: int| 0 <= j < i ==> !logs_in(#[trigger] users@[j], name@, key@),
                Some(f) => f < i && logs_in(users@[f as int], name@, key@) && forall|j: int|
                    0 <= j < i && j != f ==> !logs_in(#[trigger] users@[j], name@, key@),
            },
            twice ==> exists|a: int, b: int|
                0 <= a < b < i && logs_in(#[trigger] users@[a], name@, key@) && logs_in(
                    #[trigger] users@[b],
                    name@,
                    key@,
                ),
        decreases n - i,
    {
        let u = &users[i];
        if !u.disabled && u.name == wanted_name && u.key == wanted_key {
            if found.is_some() {
                if !twice {
                    let f = found.unwrap();
                    assert(logs_in(users@[f as int], name@, key@));
                    assert(logs_in(users@[i as int], name@, key@));
                }
                twice = true;
            } else {
                found = Some(i);
            }
        }
        i = i + 1;
    }
    if twice {
        proof {
            let (a, b) = choose|a: int, b: int|
                0 <= a < b < n && logs_in(#[trigger] users@[a], name@, key@) && logs_in(
                    #[trigger] users@[b],
                    name@,
                    key@,
                );
            assert forall|k: int| !sole_login(users@, name@, key@, k) by {
                if sole_login(users@, name@, key@, k) {
                    if k == a {
                        assert(!logs_in(users@[b], name@, key@));
                    } else {
                        assert(!logs_in(users@[a], name@, key@));
                    }
                }
            }
        }
        None
    } else {
        found
    }
}

/// `flags[i]` is the one and only set flag.
pub open spec fn sole_flag(flags: Seq<bool>, i: int) -> bool {
    0 <= i < flags.len() && flags[i] && forall|j: int| 0 <= j < flags.len() && j != i ==> !(#[trigger] flags[j])
}

/// The index of the one set flag, or `None` when none or several are set.
fn sole_set_flag(flags: &Vec<bool>) -> (r: Option<usize>)
    ensures
        r matches Some(i) ==> sole_flag(flags@, i as int),
        r is None ==> forall|i: int| !sole_flag(flags@, i),
{
    let mut found: Option<usize> = None;
    let n = flags.len();
    let mut i: usize = 0;
    while i < n
        invariant
            n == flags@.len(),
            i <= n,
            match found {
                None => forall|j: int| 0 <= j < i ==> !(#[trigger] flags@[j]),
                Some(f) => f < i && flags@[f as int] && forall|j: int| 0 <= j < i && j != f ==> !(#[trigger] flags@[j]),
            },
        decreases n - i,
    {
        if flags[i] {
            if let Some(f) = found {
                proof {
                    assert forall|k: int| !sole_flag(flags@, k) by {
                        if sole_flag(flags@, k) {
                            if k == f {
                                assert(!flags@[i as int]);
                            } else {
                                assert(!flags@[f as int]);
                            }
                        }
                    }
                }
                return None;
            }
            found = Some(i);
        }
        i = i + 1;
    }
    found
}

/// `users[i]` is the one and only user of `users` named `name`.
pub open spec fn sole_user_named(users: Seq<User>, name: Seq<char>, i: int) -> bool {
    &&& 0 <= i < users.len()
    &&& users[i].name@ == name
    &&& forall|j: int| 0 <= j < users.len() && j != i ==> (#[trigger] users[j]).name@ != name
}

/// The index of the one user named `name`, or `None` when there is none or more than one.
pub fn find_user_named(users: &Vec<User>, name: &str) -> (r: Option<usize>)
    ensures
        r matches Some(i) ==> sole_user_named(users@, name@, i as int),
        r is None ==> forall|i: int| !sole_user_named(users@, name@, i),
        r matches Some(i) ==> i < users@.len() && users@[i as int].name@ == name@ && forall|j: int|
            0 <= j < users@.len() && j != i ==> (#[trigger] users@[j]).name@ != name@,
        r is None ==> forall|i: int|
            0 <= i < users@.len() && (#[trigger] users@[i]).name@ == name@ ==> exists|j: int|
                0 <= j < users@.len() && j != i && (#[trigger] users@[j]).name@ == name@,
{
    let wanted = String::from_str(name);
    let mut flags: Vec<bool> = Vec::new();
    let n = users.len();
    let mut i: usize = 0;
    while i < n
        invariant
            n == users@.len(),
            i <= n,
            wanted@ == name@,
            flags@.len() == i,
            forall|j: int| 0 <= j < i ==> #[trigger] flags@[j] == (users@[j].name@ == name@),
        decreases n - i,
    {
        flags.push(users[i].name == wanted);
        i = i + 1;
    }
    let r = sole_set_flag(&flags);
    proof {
        assert forall|k: int| #[trigger] sole_user_named(users@, name@, k) <==> sole_flag(flags@, k) by {
            if sole_user_named(users@, name@, k) {
                assert forall|j: int| 0 <= j < flags@.len() && j != k implies !(#[trigger] flags@[j]) by {
                    assert(users@[j].name@ != name@);
                }
            }
            if sole_flag(flags@, k) {
                assert forall|j: int| 0 <= j < users@.len() && j != k implies (#[trigger] users@[j]).name@
                    != name@ by {
                    assert(!flags@[j]);
                }
            }
        }
    }
    proof {
        if let Some(i) = r {
            assert(sole_user_named(users@, name@, i as int));
        }
        if r is None {
            assert forall|i: int|
                0 <= i < users@.len() && (#[trigger] users@[i]).name@ == name@ implies exists|j: int|
                0 <= j < users@.len() && j != i && (#[trigger] users@[j]).name@ == name@ by {
                assert(!sole_user_named(users@, name@, i));
            }
        }
    }
    r
}

/// `sites[i]` is the one and only site of `sites` with zone `zone`.
pub open spec fn sole_site_of_zone(sites: Seq<Site>, zone: Seq<char>, i: int) -> bool {
    &&& 0 <= i < sites.len()
    &&& sites[i].zone@ == zone
    &&& forall|j: int| 0 <= j < sites.len() && j != i ==> (#[trigger] sites[j]).zone@ != zone
}

/// The index of the one site with zone `zone`, or `None` when there is none or more than one.
pub fn find_site_of_zone(sites: &Vec<Site>, zone: &str) -> (r: Option<usize>)
    ensures
        r matches Some(i) ==> sole_site_of_zone(sites@, zone@, i as int),
        r is None ==> forall|i: int| !sole_site_of_zone(sites@, zone@, i),
        r matches Some(i) ==> i < sites@.len() && sites@[i as int].zone@ == zone@ && forall|j: int|
            0 <= j < sites@.len() && j != i ==> (#[trigger] sites@[j]).zone@ != zone@,
        r is None ==> forall|i: int|
            0 <= i < sites@.len() && (#[trigger] sites@[i]).zone@ == zone@ ==> exists|j: int|
                0 <= j < sites@.len() && j != i && (#[trigger] sites@[j]).zone@ == zone@,
{
    let wanted = String::from_str(zone);
    let mut flags: Vec<bool> = Vec::new();
    let n = sites.len();
    let mut i: usize = 0;
    while i < n
        invariant
            n == sites@.len(),
            i <= n,
            wanted@ == zone@,
            flags@.len() == i,
            forall|j: int| 0 <= j < i ==> #[trigger] flags@[j] == (sites@[j].zone@ == zone@),
        decreases n - i,
    {
        flags.push(sites[i].zone == wanted);
        i = i + 1;
    }
    let r = sole_set_flag(&flags);
    proof {
        assert forall|k: int| #[trigger] sole_site_of_zone(sites@, zone@, k) <==> sole_flag(flags@, k) by {
            if sole_site_of_zone(sites@, zone@, k) {
                assert forall|j: int| 0 <= j < flags@.len() && j != k implies !(#[trigger] flags@[j]) by {
                    assert(sites@[j].zone@ != zone@);
                }
            }
            if sole_flag(flags@, k) {
                assert forall|j: int| 0 <= j < sites@.len() && j != k implies (#[trigger] sites@[j]).zone@
                    != zone@ by {
                    assert(!flags@[j]);
                }
            }
        }
    }
    proof {
        if let Some(i) = r {
            assert(sole_site_of_zone(sites@, zone@, i as int));
        }
        if r is None {
            assert forall|i: int|
                0 <= i < sites@.len() && (#[trigger] sites@[i]).zone@ == zone@ implies exists|j: int|
                0 <= j < sites@.len() && j != i && (#[trigger] sites@[j]).zone@ == zone@ by {
                assert(!sole_site_of_zone(sites@, zone@, i));
            }
        }
    }
    r
}

/// The privilege row belongs to the site of `zone`.
pub open spec fn on_zone(row: PrivilegeRow, zone: Seq<char>) -> bool {
    row.0@ == zone
}

/// The row, on `zone`, makes its holder superuser there, or its pattern matches `rec`.
pub open spec fn row_grants(row: PrivilegeRow, zone: Seq<char>, rec: Seq<char>) -> bool {
    on_zone(row, zone) && (row.2 || regex_finds(row.1@, rec))
}

/// Some row grants the change of record `rec` on `zone`.
pub open spec fn grants(rows: Seq<PrivilegeRow>, zone: Seq<char>, rec: Seq<char>) -> bool {
    exists|i: int| 0 <= i < rows.len() && #[trigger] row_grants(rows[i], zone, rec)
}

/// A superuser row on a zone grants the change of any record there, whatever its pattern.
pub proof fn lemma_superuser_grants_any_record(rows: Seq<PrivilegeRow>, zone: Seq<char>, rec: Seq<char>, i: int)
    requires
        0 <= i < rows.len(),
        on_zone(rows[i], zone),
        rows[i].2,
    ensures
        grants(rows, zone, rec),
{
    assert(row_grants(rows[i], zone, rec));
}

/// Without a row on the zone, nothing is granted there, whatever the rows on other zones say.
pub proof fn lemma_no_row_no_grant(rows: Seq<PrivilegeRow>, zone: Seq<char>, rec: Seq<char>)
    requires
        forall|i: int| 0 <= i < rows.len() ==> !on_zone(#[trigger] rows[i], zone),
    ensures
        !grants(rows, zone, rec),
{
}

/// Every pattern of a row on `zone` compiles.
pub open spec fn patterns_compile(rows: Seq<PrivilegeRow>, zone: Seq<char>) -> bool {
    forall|i: int| 0 <= i < rows.len() && on_zone(#[trigger] rows[i], zone) ==> regex_compiles(rows[i].1@)
}

/// What `patterns_compile` means: every row with that zone has a pattern the regex crate
/// accepts.
pub proof fn lemma_patterns_compile_meaning(rows: Seq<PrivilegeRow>, zone: Seq<char>)
    ensures
        patterns_compile(rows, zone) <==> forall|i: int|
            #![trigger rows[i]]
            0 <= i < rows.len() && rows[i].0@ == zone ==> regex_compiles(rows[i].1@),
{
}

/// Whether every pattern of the rows on `zone` compiles.
pub fn patterns_valid(rows: &Vec<PrivilegeRow>, zone: &str) -> (r: bool)
    ensures
        r == patterns_compile(rows@, zone@),
        r <==> forall|i: int|
            #![trigger rows@[i]]
            0 <= i < rows@.len() && rows@[i].0@ == zone@ ==> regex_compiles(rows@[i].1@),
{
    let wanted_zone = String::from_str(zone);
    let n = rows.len();
    let mut i: usize = 0;
    while i < n
        invariant
            n == rows@.len(),
            i <= n,
            wanted_zone@ == zone@,
            forall|j: int| 0 <= j < i && on_zone(#[trigger] rows@[j], zone@) ==> regex_compiles(rows@[j].1@),
        decreases n - i,
    {
        if rows[i].0 == wanted_zone {
            if pattern_matches(rows[i].1.as_str(), "").is_none() {
                assert(on_zone(rows@[i as int], zone@));
                return false;
            }
        }
        i = i + 1;
    }
    true
}

/// Row `i`, on `zone`, makes its holder superuser there or has a pattern that matched (as
/// `matched[i]` says).
pub open spec fn granted_by(rows: Seq<PrivilegeRow>, zone: Seq<char>, matched: Seq<bool>, i: int) -> bool {
    on_zone(rows[i], zone) && (rows[i].2 || matched[i])
}

/// Some row on `zone` is a superuser row or one whose pattern matched.
pub open spec fn grant_from(rows: Seq<PrivilegeRow>, zone: Seq<char>, matched: Seq<bool>) -> bool {
    exists|i: int| 0 <= i < rows.len() && #[trigger] granted_by(rows, zone, matched, i)
}

/// The authorization decision once each row's pattern has been tried on the record name:
/// `matched[i]` says whether the pattern of `rows[i]` matched. Whether a row on `zone` is a
/// superuser row or one whose pattern matched.
pub fn grant_from_matches(rows: &Vec<PrivilegeRow>, zone: &str, matched: &Vec<bool>) -> (r: bool)
    requires
        matched@.len() == rows@.len(),
    ensures
        r == grant_from(rows@, zone@, matched@),
        r <==> exists|i: int|
            #![trigger rows@[i]]
            0 <= i < rows@.len() && rows@[i].0@ == zone@ && (rows@[i].2 || matched@[i]),
{
    let wanted_zone = String::from_str(zone);
    let n = rows.len();
    let mut allowed = false;
    let mut i: usize = 0;
    while i < n
        invariant
            n == rows@.len(),
            n == matched@.len(),
            i <= n,
            wanted_zone@ == zone@,
            allowed == exists|j: int| 0 <= j < i && #[trigger] granted_by(rows@, zone@, matched@, j),
        decreases n - i,
    {
        if rows[i].0 == wanted_zone && (rows[i].2 || matched[i]) {
            assert(granted_by(rows@, zone@, matched@, i as int));
            allowed = true;
        }
        i = i + 1;
    }
    proof {
        lemma_grant_from_meaning(rows@, zone@, matched@);
    }
    allowed
}

/// What `grant_from` means: some row has the zone and is a superuser row or one whose pattern
/// matched.
pub proof fn lemma_grant_from_meaning(rows: Seq<PrivilegeRow>, zone: Seq<char>, matched: Seq<bool>)
    ensures
        grant_from(rows, zone, matched) <==> exists|i: int|
            #![trigger rows[i]]
            0 <= i < rows.len() && rows[i].0@ == zone && (rows[i].2 || matched[i]),
{
    if grant_from(rows, zone, matched) {
        let i = choose|i: int| 0 <= i < rows.len() && #[trigger] granted_by(rows, zone, matched, i);
        assert(rows[i].0@ == zone);
    }
    if exists|i: int| #![trigger rows[i]] 0 <= i < rows.len() && rows[i].0@ == zone && (rows[i].2 || matched[i]) {
        let i = choose|i: int| #![trigger rows[i]] 0 <= i < rows.len() && rows[i].0@ == zone && (rows[i].2 || matched[i]);
        assert(granted_by(rows, zone, matched, i));
    }
}

/// What `grants` means: the change of record `rec` on `zone` is granted exactly when some row
/// has that zone and is a superuser row, or has a pattern whose regular-expression search
/// finds a match in `rec` itself.
pub proof fn lemma_grants_meaning(rows: Seq<PrivilegeRow>, zone: Seq<char>, rec: Seq<char>)
    ensures
        grants(rows, zone, rec) <==> exists|i: int|
            #![trigger rows[i]]
            0 <= i < rows.len() && rows[i].0@ == zone && (rows[i].2 || regex_finds(rows[i].1@, rec)),
{
    if grants(rows, zone, rec) {
        let i = choose|i: int| 0 <= i < rows.len() && #[trigger] row_grants(rows[i], zone, rec);
        assert(rows[i].0@ == zone);
    }
    if exists|i: int|
        #![trigger rows[i]]
        0 <= i < rows.len() && rows[i].0@ == zone && (rows[i].2 || regex_finds(rows[i].1@, rec)) {
        let i = choose|i: int|
            #![trigger rows[i]]
            0 <= i < rows.len() && rows[i].0@ == zone && (rows[i].2 || regex_finds(rows[i].1@, rec));
        assert(row_grants(rows[i], zone, rec));
    }
}

/// Authorization: whether the rows grant a change of record `rec` on `zone`, that is whether
/// one of the rows on that zone is a superuser row or has a pattern that matches `rec`.
/// Every pattern on the zone is compiled and tried, whatever the other rows grant.
pub fn privileges_grant(rows: &Vec<PrivilegeRow>, zone: &str, rec: &str) -> (r: bool)
    requires
        patterns_compile(rows@, zone@),
    ensures
        r == grants(rows@, zone@, rec@),
        r <==> exists|i: int|
            #![trigger rows@[i]]
            0 <= i < rows@.len() && rows@[i].0@ == zone@ && (rows@[i].2 || regex_finds(rows@[i].1@, rec@)),
{
    let wanted_zone = String::from_str(zone);
    let n = rows.len();
    let mut matched: Vec<bool> = Vec::new();
    let mut i: usize = 0;
    while i < n
        invariant
            n == rows@.len(),
            i <= n,
            wanted_zone@ == zone@,
            patterns_compile(rows@, zone@),
            matched@.len() == i,
            forall|j: int|
                0 <= j < i ==> #[trigger] matched@[j] == (on_zone(rows@[j], zone@) && regex_finds(
                    rows@[j].1@,
                    rec@,
                )),
        decreases n - i,
    {
        let row = &rows[i];
        let m = if row.0 == wanted_zone {
            assert(on_zone(rows@[i as int], zone@));
            match pattern_matches(row.1.as_str(), rec) {
                Some(b) => b,
                None => false,
            }
        } else {
            false
        };
        matched.push(m);
        i = i + 1;
    }
    let r = grant_from_matches(rows, zone, &matched);
    proof {
        assert forall|j: int| 0 <= j < rows@.len() implies #[trigger] granted_by(rows@, zone@, matched@, j)
            == row_grants(rows@[j], zone@, rec@) by {
            assert(matched@[j] == (on_zone(rows@[j], zone@) && regex_finds(rows@[j].1@, rec@)));
        }
        if r {
            let j = choose|j: int| 0 <= j < rows@.len() && #[trigger] granted_by(rows@, zone@, matched@, j);
            assert(row_grants(rows@[j], zone@, rec@));
        }
        if grants(rows@, zone@, rec@) {
            let j = choose|j: int| 0 <= j < rows@.len() && #[trigger] row_grants(rows@[j], zone@, rec@);
            assert(granted_by(rows@, zone@, matched@, j));
        }
        lemma_grants_meaning(rows@, zone@, rec@);
    }
    r
}

/// Authorization where a pattern may fail to compile: `None` when a pattern on the zone does
/// not compile, otherwise whether the rows grant the change of `rec` on `zone`.
pub fn try_privileges_grant(rows: &Vec<PrivilegeRow>, zone: &str, rec: &str) -> (r: Option<bool>)
    ensures
        r is None <==> !patterns_compile(rows@, zone@),
        r is None <==> exists|i: int|
            #![trigger rows@[i]]
            0 <= i < rows@.len() && rows@[i].0@ == zone@ && !regex_compiles(rows@[i].1@),
        r matches Some(b) ==> b == grants(rows@, zone@, rec@),
        r matches Some(b) ==> (b <==> exists|i: int|
            #![trigger rows@[i]]
            0 <= i < rows@.len() && rows@[i].0@ == zone@ && (rows@[i].2 || regex_finds(rows@[i].1@, rec@))),
{
    if patterns_valid(rows, zone) {
        Some(privileges_grant(rows, zone, rec))
    } else {
        None
    }
}

} // verus!
