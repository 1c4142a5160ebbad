//! Validation and remapping of a whole seed string.

use crate::alphabet::{is_alphabet_char, AlphabetTable};
use vstd::prelude::*;

verus! {

/// What one accepted character becomes: `O` turns into `o`, `l` into `L`,
/// and every other character stays as it is.
pub open spec fn remap_char(c: char) -> char {
    if c == 'O' {
        'o'
    } else if c == 'l' {
        'L'
    } else {
        c
    }
}

/// Whether every character of `s` may appear in a seed.
pub open spec fn is_valid_seed(s: Seq<char>) -> bool {
    forall|i: int| 0 <= i < s.len() ==> is_alphabet_char(#[trigger] s[i])
}

/// `s` with each character remapped.
pub open spec fn remap_seed(s: Seq<char>) -> Seq<char> {
    s.map_values(|c: char| remap_char(c))
}

/// Relies on `String::with_capacity`, which returns an empty string.
#[verifier::external_body]
fn string_with_capacity(capacity: usize) -> (r: String)
    ensures
        r@ == Seq::<char>::empty(),
{
    String::with_capacity(capacity)
}

/// Relies on `String::push`, which appends `c` to the end of `s`.
#[verifier::external_body]
fn push_char(s: &mut String, c: char)
    ensures
        final(s)@ == old(s)@.push(c),
{
    s.push(c)
}

/// Remaps one accepted character.
fn remap(c: char) -> (r: char)
    ensures
        r == remap_char(c),
{
    if c == 'O' {
        'o'
    } else if c == 'l' {
        'L'
    } else {
        c
    }
}

impl AlphabetTable {
    /// Checks every character of `input` against the alphabet and remaps
    /// the accepted ones. Fails as a whole, with no partial output, at the
    /// first character outside the alphabet.
    pub fn transform(&self, input: &str) -> (r: Result<String, ()>)
        ensures
            r is Ok <==> is_valid_seed(input@),
            r matches Ok(out) ==> out@ == remap_seed(input@),
            r matches Ok(out) ==> out@.len() == input@.len(),
    {
        self.ensure_initialized();
        let mut mapped = string_with_capacity(input.len());
        for c in it: input.chars()
            invariant
                it.seq() == input@,
                is_valid_seed(input@.take(it.index() as int)),
                mapped@ == remap_seed(input@.take(it.index() as int)),
        {
            let ghost i = it.index() as int;
            if !self.contains(c) {
                return Err(());
            }
            push_char(&mut mapped, remap(c));
            assert(input@.take(i + 1) =~= input@.take(i).push(c));
            assert(mapped@ =~= remap_seed(input@.take(i + 1)));
        }
        assert(input@.take(input@.len() as int) =~= input@);
        Ok(mapped)
    }
}

/// Validates and remaps `input`. Returns `Ok` with the remapped seed when
/// every character is in the alphabet, and `Err(())` otherwise. The table
/// used is built for this call; callers that run many seeds can keep an
/// `AlphabetTable` and call `transform` on it.
pub fn b58ify(input: &str) -> (r: Result<String, ()>)
    ensures
        r is Ok <==> is_valid_seed(input@),
        r matches Ok(out) ==> out@ == remap_seed(input@),
        r matches Ok(out) ==> out@.len() == input@.len(),
{
    let table = AlphabetTable::new();
    table.transform(input)
}

/// Whether `c` is an ASCII digit or an ASCII letter.
pub open spec fn is_ascii_alphanumeric(c: char) -> bool {
    ||| '0' as u32 <= c as u32 && c as u32 <= '9' as u32
    ||| 'a' as u32 <= c as u32 && c as u32 <= 'z' as u32
    ||| 'A' as u32 <= c as u32 && c as u32 <= 'Z' as u32
}

/// A seed that holds neither `O` nor `l` is left unchanged by remapping.
pub proof fn lemma_remap_identity_without_folded(s: Seq<char>)
    requires
        !s.contains('O'),
        !s.contains('l'),
    ensures
        remap_seed(s) == s,
{
    assert forall|i: int| 0 <= i < s.len() implies remap_seed(s)[i] == s[i] by {
        assert(s[i] != 'O');
        assert(s[i] != 'l');
    }
    assert(remap_seed(s) =~= s);
}

/// The remapped form of an accepted seed is accepted again and is its own
/// remapped form, since it holds neither `O` nor `l`.
pub proof fn lemma_remap_idempotent(s: Seq<char>)
    requires
        is_valid_seed(s),
    ensures
        is_valid_seed(remap_seed(s)),
        remap_seed(remap_seed(s)) == remap_seed(s),
{
    let r = remap_seed(s);
    assert forall|i: int| 0 <= i < r.len() implies is_alphabet_char(#[trigger] r[i]) by {
        assert(is_alphabet_char(s[i]));
    }
    assert(!r.contains('O'));
    assert(!r.contains('l'));
    lemma_remap_identity_without_folded(r);
}

/// A seed that holds the digit zero is rejected.
pub proof fn lemma_zero_rejected(s: Seq<char>)
    requires
        s.contains('0'),
    ensures
        !is_valid_seed(s),
{
}

/// A seed that holds any character other than an ASCII letter or digit
/// (white space, punctuation, a symbol, a non-ASCII character) is rejected.
pub proof fn lemma_non_alphanumeric_rejected(s: Seq<char>, i: int)
    requires
        0 <= i < s.len(),
        !is_ascii_alphanumeric(s[i]),
    ensures
        !is_valid_seed(s),
{
    assert(!is_alphabet_char(s[i]));
}

} // verus!
