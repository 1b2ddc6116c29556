use vstd::prelude::*;
use vstd::string::*;
use vstd::utf8::*;

verus! {

/// The length in bytes of `s`, as UTF-8.
pub fn calculate_length(s: &String) -> (r: usize)
    ensures
        r == encode_utf8(s@).len() as usize,
{
    let length: usize = s.as_str().len();
    length
}

/// Appends `", WORLD"` to `some_string`.
pub fn change(some_string: &mut String)
    ensures
        final(some_string)@ == old(some_string)@ + ", WORLD"@,
{
    some_string.append(", WORLD");
}

/// A freshly owned `"hello"`.
pub fn no_dangle() -> (r: String)
    ensures
        r@ == "hello"@,
{
    let s: String = "hello".to_owned();
    s
}

/// Whether `w` is the first word of `b`: the bytes before the first space, or all of
/// `b` when it holds no space.
pub open spec fn is_first_word(b: Seq<u8>, w: Seq<u8>) -> bool {
    &&& w.len() <= b.len()
    &&& w == b.subrange(0, w.len() as int)
    &&& forall|j: int| 0 <= j < w.len() ==> w[j] != 32u8
    &&& (w.len() == b.len() || b[w.len() as int] == 32u8)
}

/// The first word of `s`: the part before its first space, or all of `s` when it
/// holds no space.
pub fn first_word(s: &str) -> (r: &str)
    ensures
        is_first_word(s.spec_bytes(), r.spec_bytes()),
{
    let bytes: &[u8] = s.as_bytes();
    let n: usize = bytes.len();
    let mut i: usize = 0;
    while i < n
        invariant
            n == bytes@.len(),
            bytes@ == s.spec_bytes(),
            i <= n,
            forall|j: int| 0 <= j < i ==> bytes@[j] != 32u8,
        decreases n - i,
    {
        if bytes[i] == 32u8 {
            proof {
                encode_utf8_valid_utf8(s@);
                is_char_boundary_iff_not_is_continuation_byte(bytes@, i as int);
            }
            let (word, _rest) = s.split_at(i);
            assert(word.spec_bytes() =~= bytes@.subrange(0, i as int));
            return word;
        }
        i = i + 1;
    }
    assert(bytes@.subrange(0, n as int) =~= bytes@);
    s
}

} // verus!
