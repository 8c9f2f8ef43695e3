//! Account-identifier validity: the rules a party identifier must meet
//! before it may appear in a royalty table.

use vstd::prelude::*;

verus! {

/// '-', '_' and '.' separate the parts of an account identifier.
pub open spec fn separator_char(c: char) -> bool {
    c == '-' || c == '_' || c == '.'
}

/// The characters an account identifier may contain.
pub open spec fn account_char(c: char) -> bool {
    ('a' <= c && c <= 'z') || ('0' <= c && c <= '9') || separator_char(c)
}

/// A well-formed party identifier: 2 to 64 characters, all lower-case
/// letters, digits or separators, with no separator at either end and no two
/// separators in a row.
pub open spec fn valid_account_id(s: Seq<char>) -> bool {
    &&& 2 <= s.len() <= 64
    &&& forall|i: int| 0 <= i < s.len() ==> account_char(#[trigger] s[i])
    &&& !separator_char(s[0])
    &&& !separator_char(s[s.len() - 1])
    &&& forall|i: int|
        0 < i < s.len() ==> !(separator_char(#[trigger] s[i]) && separator_char(s[i - 1]))
}

/// Decides `valid_account_id` for a given identifier.
pub fn is_valid_account_id(account_id: &str) -> (r: bool)
    ensures
        r == valid_account_id(account_id@),
{
    proof {
        vstd::string::is_ascii_spec_bytes(account_id);
    }
    if !account_id.is_ascii() {
        proof {
            let k = choose|i: int|
                0 <= i < account_id@.len() && !('\0' <= #[trigger] account_id@[i] <= '\u{7f}');
            assert(!account_char(account_id@[k]));
        }
        return false;
    }
    let bytes: &[u8] = account_id.as_bytes();
    let n: usize = bytes.len();
    let ghost s = account_id@;
    assert(bytes@.len() == s.len());
    assert(forall|i: int| 0 <= i < s.len() ==> bytes@[i] == #[trigger] s[i] as u8);
    assert(forall|i: int|
        0 <= i < s.len() ==> (separator_char(#[trigger] s[i]) <==> {
            let b = s[i] as u8;
            b == 45 || b == 95 || b == 46
        }));
    assert(forall|i: int|
        0 <= i < s.len() ==> (account_char(#[trigger] s[i]) <==> {
            let b = s[i] as u8;
            (97 <= b && b <= 122) || (48 <= b && b <= 57) || b == 45 || b == 95 || b == 46
        }));
    if n < 2 || n > 64 {
        return false;
    }
    let mut i: usize = 0;
    let mut last_sep: bool = true;
    while i < n
        invariant
            s == account_id@,
            0 <= i <= n,
            n == bytes@.len(),
            bytes@.len() == s.len(),
            2 <= n <= 64,
            forall|k: int| 0 <= k < s.len() ==> bytes@[k] == #[trigger] s[k] as u8,
            forall|k: int|
                0 <= k < s.len() ==> (separator_char(#[trigger] s[k]) <==> {
                    let b = s[k] as u8;
                    b == 45 || b == 95 || b == 46
                }),
            forall|k: int|
                0 <= k < s.len() ==> (account_char(#[trigger] s[k]) <==> {
                    let b = s[k] as u8;
                    (97 <= b && b <= 122) || (48 <= b && b <= 57) || b == 45 || b == 95 || b == 46
                }),
            forall|k: int| 0 <= k < i ==> account_char(#[trigger] s[k]),
            i == 0 ==> last_sep,
            i > 0 ==> last_sep == separator_char(s[i - 1]),
            i > 0 ==> !separator_char(s[0]),
            forall|k: int|
                0 < k < i ==> !(separator_char(#[trigger] s[k]) && separator_char(s[k - 1])),
        decreases n - i,
    {
        let b: u8 = bytes[i];
        let sep: bool = b == 45 || b == 95 || b == 46;
        let okb: bool = (97 <= b && b <= 122) || (48 <= b && b <= 57) || sep;
        if !okb {
            assert(!account_char(s[i as int]));
            return false;
        }
        if sep && last_sep {
            if i == 0 {
                assert(separator_char(s[0]));
            } else {
                assert(separator_char(s[i as int]) && separator_char(s[i as int - 1]));
            }
            return false;
        }
        last_sep = sep;
        i += 1;
    }
    if last_sep {
        assert(separator_char(s[s.len() - 1]));
        return false;
    }
    true
}

} // verus!
