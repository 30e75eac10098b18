//! The package guard applied while caching the data directory at attach time:
//! the package name is digested, the digest is hex-formatted, and packages on
//! the fixed block list are refused a data directory (the bootstrap then never
//! establishes its cached state for them).

use vstd::prelude::*;
use vstd::string::StringExecFns;
use crate::strutil::{push_char, str_eq};

verus! {

/// The digest of a package name. Relied on through `md5_digest`.
pub uninterp spec fn md5_of(s: Seq<char>) -> Seq<u8>;

/// Relies on `md5::compute`: the digest is a pure function of the input bytes
/// alone, and is sixteen bytes long.
#[verifier::external_body]
fn md5_digest(data: &str) -> (r: Vec<u8>)
    ensures
        r@ == md5_of(data@),
        r@.len() == 16,
{
    md5::compute(data.as_bytes()).0.to_vec()
}

/// The lower-case hex digit of a nibble value.
pub open spec fn spec_hex_digit(n: int) -> char {
    if n == 0 {
        '0'
    } else if n == 1 {
        '1'
    } else if n == 2 {
        '2'
    } else if n == 3 {
        '3'
    } else if n == 4 {
        '4'
    } else if n == 5 {
        '5'
    } else if n == 6 {
        '6'
    } else if n == 7 {
        '7'
    } else if n == 8 {
        '8'
    } else if n == 9 {
        '9'
    } else if n == 10 {
        'a'
    } else if n == 11 {
        'b'
    } else if n == 12 {
        'c'
    } else if n == 13 {
        'd'
    } else if n == 14 {
        'e'
    } else {
        'f'
    }
}

/// Renders one nibble as its lower-case hex digit.
fn hex_digit(n: u8) -> (r: char)
    requires
        n < 16,
    ensures
        r == spec_hex_digit(n as int),
{
    if n == 0 {
        '0'
    } else if n == 1 {
        '1'
    } else if n == 2 {
        '2'
    } else if n == 3 {
        '3'
    } else if n == 4 {
        '4'
    } else if n == 5 {
        '5'
    } else if n == 6 {
        '6'
    } else if n == 7 {
        '7'
    } else if n == 8 {
        '8'
    } else if n == 9 {
        '9'
    } else if n == 10 {
        'a'
    } else if n == 11 {
        'b'
    } else if n == 12 {
        'c'
    } else if n == 13 {
        'd'
    } else if n == 14 {
        'e'
    } else {
        'f'
    }
}

/// The lower-case hex rendering of a byte sequence, two digits per byte, high
/// nibble first.
pub open spec fn spec_hex(data: Seq<u8>) -> Seq<char>
    decreases data.len(),
{
    if data.len() == 0 {
        Seq::<char>::empty()
    } else {
        spec_hex(data.drop_last()).push(spec_hex_digit((data.last() / 16) as int)).push(
            spec_hex_digit((data.last() % 16) as int),
        )
    }
}

/// Renders bytes as lower-case hex.
pub fn to_hex(data: &Vec<u8>) -> (r: String)
    ensures
        r@ == spec_hex(data@),
{
    let mut out = String::new();
    let n = data.len();
    let mut i: usize = 0;
    while i < n
        invariant
            n == data@.len(),
            i <= n,
            out@ == spec_hex(data@.take(i as int)),
        decreases n - i,
    {
        let b = data[i];
        let hi = b / 16;
        let lo = b % 16;
        push_char(&mut out, hex_digit(hi));
        push_char(&mut out, hex_digit(lo));
        proof {
            let t = data@.take(i + 1);
            assert(t.drop_last() =~= data@.take(i as int));
            assert(t.last() == data@[i as int]);
        }
        i += 1;
    }
    proof {
        assert(data@.take(n as int) =~= data@);
    }
    out
}

/// The hex digest under which a package is checked against the block list.
pub fn package_hash(package_name: &str) -> (r: String)
    ensures
        r@ == spec_hex(md5_of(package_name@)),
{
    let digest = md5_digest(package_name);
    to_hex(&digest)
}

/// Whether a hex digest is on the fixed block list.
pub open spec fn spec_blocked_hash(h: Seq<char>) -> bool {
    ||| h == "95fb4cd16729627d013dc620a807c23c"@
    ||| h == "ffaf599e1b7e1175cd344b367e4a7ec4"@
    ||| h == "be1878f1900f48586eb7cab537f82f62"@
    ||| h == "196d46a42878aae4188839d35fdad747"@
    ||| h == "9b6f24bad02220abf7e12d7b4ad771f4"@
    ||| h == "a5595fbc343dbc2a468eb76533d345a5"@
    ||| h == "964c753427382e3bf56c1f7ee5a37f06"@
    ||| h == "e010d19cbf15c335d8f1852a1639c42c"@
    ||| h == "72cfa3439d21cc03ece7182cd494b75b"@
    ||| h == "0a4876540f4f7a11fd57a6ce54bbe0a7"@
    ||| h == "79aca3897e0c3e750a1f4b62776e8831"@
}

/// Checks one hex digest against the block list.
fn is_blocked_hash(h: &String) -> (r: bool)
    ensures
        r == spec_blocked_hash(h@),
{
    if str_eq(h.as_str(), "95fb4cd16729627d013dc620a807c23c") {
        return true;
    }
    if str_eq(h.as_str(), "ffaf599e1b7e1175cd344b367e4a7ec4") {
        return true;
    }
    if str_eq(h.as_str(), "be1878f1900f48586eb7cab537f82f62") {
        return true;
    }
    if str_eq(h.as_str(), "196d46a42878aae4188839d35fdad747") {
        return true;
    }
    if str_eq(h.as_str(), "9b6f24bad02220abf7e12d7b4ad771f4") {
        return true;
    }
    if str_eq(h.as_str(), "a5595fbc343dbc2a468eb76533d345a5") {
        return true;
    }
    if str_eq(h.as_str(), "964c753427382e3bf56c1f7ee5a37f06") {
        return true;
    }
    if str_eq(h.as_str(), "e010d19cbf15c335d8f1852a1639c42c") {
        return true;
    }
    if str_eq(h.as_str(), "72cfa3439d21cc03ece7182cd494b75b") {
        return true;
    }
    if str_eq(h.as_str(), "0a4876540f4f7a11fd57a6ce54bbe0a7") {
        return true;
    }
    if str_eq(h.as_str(), "79aca3897e0c3e750a1f4b62776e8831") {
        return true;
    }
    false
}

/// Whether a package name is refused by the block list.
pub fn is_blocked_package(package_name: &str) -> (r: bool)
    ensures
        r == spec_blocked_hash(spec_hex(md5_of(package_name@))),
{
    let h = package_hash(package_name);
    is_blocked_hash(&h)
}

/// The cached state established at attach time for an admitted package.
pub struct DataDirPlan {
    /// The external data directory later returned as the current directory.
    pub data_dir: String,
    /// The package name later returned to managed code.
    pub package_name: String,
}

/// Decides the attach-time cache: a blocked package gets nothing; any other
/// package gets its external data directory under the storage root and its
/// own name.
pub fn plan_data_dir(storage_root: &str, package_name: &str) -> (r: Option<DataDirPlan>)
    ensures
        match r {
            None => spec_blocked_hash(spec_hex(md5_of(package_name@))),
            Some(p) => !spec_blocked_hash(spec_hex(md5_of(package_name@))) && p.data_dir@
                == storage_root@ + "/MelonLoader/"@ + package_name@ && p.package_name@
                == package_name@,
        },
{
    if is_blocked_package(package_name) {
        return None;
    }
    let dir = storage_root.to_owned().concat("/MelonLoader/").concat(package_name);
    proof {
        assert(dir@ =~= storage_root@ + "/MelonLoader/"@ + package_name@);
    }
    Some(DataDirPlan { data_dir: dir, package_name: package_name.to_owned() })
}

} // verus!
