//! User profiles recorded under
//! `Microsoft\Windows NT\CurrentVersion\ProfileList` of the SOFTWARE hive.

use vstd::prelude::*;

use crate::extract::{find_subkeys, find_value, string_of, subkeys_lookup, value_lookup, ExtractError};
use crate::hive::{Hive, KeyNode};
use crate::wintime::{convert_win_time, WinTimestamp};

verus! {

/// One user profile: the key's time, its name (the account's SID) and the
/// profile's directory.
pub struct ProfileListEntry {
    pub timestamp: WinTimestamp,
    pub sid: String,
    pub profile_image_path: String,
}

/// The profile directory of key `at`: its `ProfileImagePath` string.
pub open spec fn profile_path(h: Hive, at: usize) -> Result<Seq<char>, ExtractError> {
    match value_lookup(h, at, "ProfileImagePath"@) {
        Err(e) => Err(e),
        Ok(v) => match string_of(v) {
            Ok(t) => Ok(t),
            Err(d) => Err(ExtractError::Decode(d)),
        },
    }
}

/// The profiles of the keys `ids`, in order, as (key, directory); the first
/// key that cannot be read is the error.
pub open spec fn profiles(h: Hive, ids: Seq<usize>) -> Result<Seq<(usize, Seq<char>)>, ExtractError>
    decreases ids.len(),
{
    if ids.len() == 0 {
        Ok(Seq::empty())
    } else {
        match profiles(h, ids.drop_last()) {
            Err(e) => Err(e),
            Ok(rest) => match profile_path(h, ids.last()) {
                Err(e) => Err(e),
                Ok(p) => Ok(rest.push((ids.last(), p))),
            },
        }
    }
}

proof fn lemma_profiles_error_sticks(h: Hive, ids: Seq<usize>, n: int)
    requires
        0 <= n <= ids.len(),
        profiles(h, ids.take(n)) is Err,
    ensures
        profiles(h, ids) == profiles(h, ids.take(n)),
    decreases ids.len() - n,
{
    if n < ids.len() {
        assert(ids.take(n + 1).drop_last() =~= ids.take(n));
        lemma_profiles_error_sticks(h, ids, n + 1);
    } else {
        assert(ids.take(n) =~= ids);
    }
}

/// `e` reports profile `p` of the hive.
pub open spec fn profile_matches(h: Hive, p: (usize, Seq<char>), e: ProfileListEntry) -> bool {
    &&& e.sid@ == h.cells@[p.0 as int].name@
    &&& e.timestamp == WinTimestamp { micros: h.cells@[p.0 as int].timestamp / 10 }
    &&& e.profile_image_path@ == p.1
}

/// The user profiles that the SOFTWARE hive lists, in key order.
pub fn get_profile_list(hive: &Hive) -> (r: Result<Vec<ProfileListEntry>, ExtractError>)
    ensures
        match subkeys_lookup(*hive, "Microsoft\\Windows NT\\CurrentVersion\\ProfileList"@) {
            Err(e) => r == Err::<Vec<ProfileListEntry>, ExtractError>(e),
            Ok(ids) => match profiles(*hive, ids) {
                Err(e) => r == Err::<Vec<ProfileListEntry>, ExtractError>(e),
                Ok(ps) => r matches Ok(es) && es@.len() == ps.len() && forall|k: int|
                    0 <= k < ps.len() ==> profile_matches(*hive, ps[k], #[trigger] es@[k]),
            },
        },
{
    let keys = find_subkeys(hive, "Microsoft\\Windows NT\\CurrentVersion\\ProfileList")?;
    let ghost ids = keys@.map_values(|k: KeyNode| k.cell);
    proof {
        assert(ids =~= subkeys_lookup(*hive, "Microsoft\\Windows NT\\CurrentVersion\\ProfileList"@)->Ok_0);
        assert(ids.take(0) =~= Seq::<usize>::empty());
    }
    let mut out: Vec<ProfileListEntry> = Vec::new();
    let ghost mut ps: Seq<(usize, Seq<char>)> = Seq::empty();
    let mut i: usize = 0;
    while i < keys.len()
        invariant
            i <= keys@.len(),
            ids == keys@.map_values(|k: KeyNode| k.cell),
            subkeys_lookup(*hive, "Microsoft\\Windows NT\\CurrentVersion\\ProfileList"@) == Ok::<Seq<usize>, ExtractError>(ids),
            forall|j: int| 0 <= j < keys@.len() ==> (#[trigger] keys@[j]).cell < hive.cells@.len(),
            profiles(*hive, ids.take(i as int)) == Ok::<Seq<(usize, Seq<char>)>, ExtractError>(ps),
            out@.len() == ps.len(),
            forall|k: int| 0 <= k < ps.len() ==> profile_matches(*hive, ps[k], #[trigger] out@[k]),
        decreases keys.len() - i,
    {
        let key = keys[i];
        proof {
            assert(ids.take(i as int + 1).drop_last() =~= ids.take(i as int));
            assert(ids.take(i as int + 1).last() == key.cell);
        }
        let path = match find_value(hive, key, "ProfileImagePath") {
            Err(e) => Err(e),
            Ok(v) => match v.string_data() {
                Ok(s) => Ok(s),
                Err(d) => Err(ExtractError::Decode(d)),
            },
        };
        match path {
            Err(e) => {
                proof {
                    assert(profiles(*hive, ids.take(i as int + 1)) == Err::<Seq<(usize, Seq<char>)>, ExtractError>(e));
                    lemma_profiles_error_sticks(*hive, ids, i as int + 1);
                }
                return Err(e);
            },
            Ok(p) => {
                proof {
                    ps = ps.push((key.cell, p@));
                }
                out.push(
                    ProfileListEntry {
                        timestamp: convert_win_time(hive.timestamp(key)),
                        sid: hive.name(key).clone(),
                        profile_image_path: p,
                    },
                );
            },
        }
        i = i + 1;
    }
    proof {
        assert(ids.take(keys@.len() as int) =~= ids);
    }
    Ok(out)
}

} // verus!
