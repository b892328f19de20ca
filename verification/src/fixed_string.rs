//! Fixed-length, NUL-padded names as SoundFont records store them.

use vstd::prelude::*;

verus! {

/// What `String::from_utf8_lossy` makes of a byte sequence.
pub uninterp spec fn spec_utf8_lossy(bytes: Seq<u8>) -> Seq<char>;

/// The characters of an ASCII byte sequence.
pub open spec fn spec_ascii_chars(bytes: Seq<u8>) -> Seq<char> {
    bytes.map_values(|b: u8| b as char)
}

/// Every byte is ASCII.
pub open spec fn spec_all_ascii(bytes: Seq<u8>) -> bool {
    forall|i: int| 0 <= i < bytes.len() ==> #[trigger] bytes[i] < 128
}

/// Calls `String::from_utf8_lossy` and takes ownership of the result.
///
/// The contract names the result and states only what the standard library
/// documents of it: valid UTF-8, such as ASCII, decodes to the same characters.
#[verifier::external_body]
fn utf8_lossy(bytes: &[u8]) -> (r: String)
    ensures
        r@ == spec_utf8_lossy(bytes@),
        spec_all_ascii(bytes@) ==> r@ == spec_ascii_chars(bytes@),
{
    String::from_utf8_lossy(bytes).into_owned()
}

/// The bytes before the first NUL.
pub open spec fn spec_until_nul(s: Seq<u8>) -> Seq<u8>
    decreases s.len(),
{
    if s.len() == 0 {
        s
    } else if s[0] == 0 {
        Seq::empty()
    } else {
        seq![s[0]] + spec_until_nul(s.drop_first())
    }
}

/// The text of a NUL-padded field of `len` bytes at `p`.
pub open spec fn spec_fixed_string(d: Seq<u8>, p: int, len: int) -> Seq<char> {
    spec_utf8_lossy(spec_until_nul(d.subrange(p, p + len)))
}

proof fn lemma_until_nul(s: Seq<u8>, i: int)
    requires
        0 <= i <= s.len(),
        forall|k: int| 0 <= k < i ==> s[k] != 0,
        i == s.len() || s[i] == 0,
    ensures
        spec_until_nul(s) == s.take(i),
    decreases s.len(),
{
    if s.len() == 0 {
    } else if s[0] == 0 {
        assert(i == 0);
        assert(s.take(0) =~= Seq::<u8>::empty());
    } else {
        let t = s.drop_first();
        assert forall|k: int| 0 <= k < i - 1 implies t[k] != 0 by {
            assert(t[k] == s[k + 1]);
        }
        lemma_until_nul(t, i - 1);
        assert(seq![s[0]] + t.take(i - 1) =~= s.take(i));
    }
}

/// Reads the name stored in the `len` bytes of `data` at `p`: the bytes before the
/// first NUL, decoded as UTF-8 with invalid sequences replaced.
pub fn read_fixed_length_string(data: &[u8], p: usize, len: usize) -> (r: String)
    requires
        p + len <= data@.len(),
    ensures
        r@ == spec_fixed_string(data@, p as int, len as int),
{
    let n = data.len();
    let mut actual: usize = 0;
    while actual < len && data[p + actual] != 0
        invariant
            n == data@.len(),
            actual <= len,
            p + len <= data@.len(),
            forall|k: int| p <= k < p + actual ==> data@[k] != 0,
        decreases len - actual,
    {
        actual += 1;
    }
    let mut bytes: Vec<u8> = Vec::new();
    let mut i: usize = 0;
    while i < actual
        invariant
            n == data@.len(),
            i <= actual <= len,
            p + len <= data@.len(),
            bytes@ == data@.subrange(p as int, p + i),
        decreases actual - i,
    {
        bytes.push(data[p + i]);
        i += 1;
        assert(bytes@ =~= data@.subrange(p as int, p + i));
    }
    proof {
        let field = data@.subrange(p as int, p + len);
        assert forall|k: int| 0 <= k < actual implies field[k] != 0 by {
            assert(field[k] == data@[p + k]);
        }
        if actual < len {
            assert(field[actual as int] == data@[p + actual]);
        }
        lemma_until_nul(field, actual as int);
        assert(field.take(actual as int) =~= bytes@);
    }
    utf8_lossy(bytes.as_slice())
}

} // verus!
