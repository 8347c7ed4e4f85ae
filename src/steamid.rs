use vstd::prelude::*;
use crate::text::{decimal, push_digits};

verus! {

/// A player's chat identity and the 64-bit SteamID linked to it.
#[derive(Debug, Clone, Copy, PartialEq, Eq, Structural)]
pub struct SteamUser {
    pub discord: i64,
    pub steam: i64,
}

/// The 64-bit id of the first individual account; a textual id `STEAM_X:Y:Z`
/// stands for this plus `2 * Z + Y`.
pub const STEAM_ID_BASE: u64 = 76561197960265728;

/// The largest value of a signed 64-bit integer.
pub const I64_MAX: u64 = 9223372036854775807;

/// An ASCII decimal digit.
pub open spec fn is_digit(c: char) -> bool {
    '0' <= c && c <= '9'
}

/// The number written by a sequence of decimal digits.
pub open spec fn digits_value(d: Seq<char>) -> nat
    decreases d.len(),
{
    if d.len() == 0 {
        0
    } else {
        10 * digits_value(d.drop_last()) + ((d.last() as nat) - ('0' as nat)) as nat
    }
}

/// `s` has the form `STEAM_X:Y:Z`: X a digit from 0 to 5, Y a 0 or 1, Z one
/// or more decimal digits.
pub open spec fn is_steam2_id(s: Seq<char>) -> bool {
    &&& s.len() >= 11
    &&& s.take(6) == "STEAM_"@
    &&& '0' <= s[6] && s[6] <= '5'
    &&& s[7] == ':'
    &&& (s[8] == '0' || s[8] == '1')
    &&& s[9] == ':'
    &&& forall|i: int| 10 <= i < s.len() ==> is_digit(#[trigger] s[i])
}

/// The Z part of a textual id.
pub open spec fn steam2_z(s: Seq<char>) -> nat {
    digits_value(s.subrange(10, s.len() as int))
}

/// The Y part of a textual id.
pub open spec fn steam2_y(s: Seq<char>) -> nat {
    if s[8] == '1' {
        1
    } else {
        0
    }
}

/// The 64-bit SteamID that a textual id stands for.
pub open spec fn steam64_of(s: Seq<char>) -> nat {
    STEAM_ID_BASE as nat + 2 * steam2_z(s) + steam2_y(s)
}

/// A prefix of a digit sequence writes no larger a number.
proof fn lemma_prefix_value_le(d: Seq<char>, k: int)
    requires
        0 <= k <= d.len(),
    ensures
        digits_value(d.take(k)) <= digits_value(d),
    decreases d.len(),
{
    if k == d.len() {
        assert(d.take(k) =~= d);
    } else {
        assert(d.take(k) =~= d.drop_last().take(k));
        lemma_prefix_value_le(d.drop_last(), k);
    }
}

/// Reads a textual SteamID `STEAM_X:Y:Z` as its 64-bit id, `None` when the
/// text does not have that form or the id does not fit a signed 64-bit
/// integer.
pub fn parse_steam_id(s: &str) -> (r: Option<u64>)
    ensures
        r is Some <==> is_steam2_id(s@) && steam64_of(s@) <= I64_MAX,
        r is Some ==> r->0 == steam64_of(s@),
{
    let n = s.unicode_len();
    if n < 11 {
        return None;
    }
    if s.get_char(0) != 'S' || s.get_char(1) != 'T' || s.get_char(2) != 'E' || s.get_char(3)
        != 'A' || s.get_char(4) != 'M' || s.get_char(5) != '_' {
        proof {
            reveal_strlit("STEAM_");
            assert("STEAM_"@ =~= seq!['S', 'T', 'E', 'A', 'M', '_']);
            assert(s@.take(6) != "STEAM_"@);
        }
        return None;
    }
    proof {
        reveal_strlit("STEAM_");
    }
    assert(s@.take(6) =~= "STEAM_"@);
    let universe = s.get_char(6);
    let y_char = s.get_char(8);
    if !('0' <= universe && universe <= '5') || s.get_char(7) != ':' || !(y_char == '0'
        || y_char == '1') || s.get_char(9) != ':' {
        return None;
    }
    let ghost digits = s@.subrange(10, n as int);
    let mut z: u64 = 0;
    let mut i: usize = 10;
    while i < n
        invariant
            n == s@.len(),
            10 <= i <= n,
            digits == s@.subrange(10, n as int),
            forall|j: int| 10 <= j < i ==> is_digit(#[trigger] s@[j]),
            z == digits_value(digits.take(i - 10)),
            z <= 4611686018427387909,
        decreases n - i,
    {
        let c = s.get_char(i);
        if !('0' <= c && c <= '9') {
            return None;
        }
        proof {
            assert(digits.take(i + 1 - 10).drop_last() =~= digits.take(i - 10));
            assert(digits.take(i + 1 - 10).last() == c);
        }
        if z > 461168601842738790 {
            proof {
                let all_digits = is_steam2_id(s@);
                if all_digits {
                    lemma_prefix_value_le(digits, i + 1 - 10);
                }
            }
            return None;
        }
        z = z * 10 + (c as u64 - '0' as u64);
        i += 1;
    }
    proof {
        assert(digits.take(n - 10) =~= digits);
    }
    let y: u64 = if y_char == '1' { 1 } else { 0 };
    let id = STEAM_ID_BASE + 2 * z + y;
    if id > I64_MAX {
        return None;
    }
    Some(id)
}

/// Whether a text is a textual SteamID `STEAM_X:Y:Z` whose 64-bit id fits a
/// signed 64-bit integer.
pub fn is_valid_steam_id(s: &str) -> (r: bool)
    ensures
        r == (is_steam2_id(s@) && steam64_of(s@) <= I64_MAX),
{
    parse_steam_id(s).is_some()
}

/// The 64-bit SteamID of a textual one, `STEAM_X:Y:Z` giving
/// `76561197960265728 + 2 * Z + Y`.
pub fn convert_steamid_to_64(steamid: &str) -> (r: u64)
    requires
        is_steam2_id(steamid@),
        steam64_of(steamid@) <= I64_MAX,
    ensures
        r == steam64_of(steamid@),
{
    match parse_steam_id(steamid) {
        Some(id) => id,
        None => 0,
    }
}

/// The textual id, in the public universe, of a 64-bit SteamID: its account
/// number is the low 32 bits; Y is the account number's lowest bit and Z the
/// rest.
pub open spec fn steam2_text(id: u64) -> Seq<char> {
    let account = (id as nat) % 4294967296;
    "STEAM_1:"@ + decimal((account % 2) as int) + ":"@ + decimal((account / 2) as int)
}

/// The textual id of a 64-bit SteamID.
pub fn steam2_id(id: u64) -> (r: String)
    ensures
        r@ == steam2_text(id),
{
    let account = id % 4294967296;
    let mut s = String::from_str("STEAM_1:");
    push_digits(&mut s, account % 2);
    s.append(":");
    push_digits(&mut s, account / 2);
    s
}

/// The players' textual ids, separated by commas.
pub open spec fn joined_ids(users: Seq<SteamUser>) -> Seq<char>
    decreases users.len(),
{
    if users.len() == 0 {
        seq![]
    } else if users.len() == 1 {
        steam2_text(users[0].steam as u64)
    } else {
        joined_ids(users.drop_last()) + ","@ + steam2_text(users.last().steam as u64)
    }
}

/// The connection string of a team: the textual ids of its players, joined
/// by commas, in roster order.
pub fn team_conn_str(users: &Vec<SteamUser>) -> (r: String)
    ensures
        r@ == joined_ids(users@),
{
    let mut s = String::new();
    let mut k: usize = 0;
    while k < users.len()
        invariant
            k <= users.len(),
            s@ == joined_ids(users@.take(k as int)),
        decreases users.len() - k,
    {
        proof {
            assert(users@.take(k + 1).drop_last() =~= users@.take(k as int));
        }
        if k > 0 {
            s.append(",");
        }
        let id = steam2_id(users[k].steam as u64);
        s.append(id.as_str());
        proof {
            if k == 0 {
                assert(s@ =~= joined_ids(users@.take(1)));
            } else {
                assert(s@ =~= joined_ids(users@.take(k + 1)));
            }
        }
        k += 1;
    }
    proof {
        assert(users@.take(users.len() as int) =~= users@);
    }
    s
}

} // verus!
