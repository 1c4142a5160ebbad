//! The set of characters a seed may contain, built lazily once per table.

use once_cell::sync::OnceCell;
use std::collections::HashSet;
use vstd::prelude::*;

verus! {

broadcast use vstd::std_specs::hash::group_hash_axioms;

/// Whether `x` is the code point of an ASCII digit from `1` to `9` or of an
/// ASCII letter of either case.
pub open spec fn is_alphabet_code(x: u32) -> bool {
    ||| '1' as u32 <= x && x <= '9' as u32
    ||| 'a' as u32 <= x && x <= 'z' as u32
    ||| 'A' as u32 <= x && x <= 'Z' as u32
}

/// Whether `c` may appear in a seed: all ASCII letters and digits but `0`.
pub open spec fn is_alphabet_char(c: char) -> bool {
    is_alphabet_code(c as u32)
}

/// The code points of all characters that may appear in a seed.
pub open spec fn alphabet_codes() -> Set<u32> {
    Set::new(|x: u32| is_alphabet_code(x))
}

/// Inserts the codes `lo..hi` into `set`.
fn insert_range(set: &mut HashSet<u32>, lo: u32, hi: u32)
    requires
        lo <= hi,
    ensures
        final(set)@ == old(set)@.union(Set::new(|x: u32| lo <= x && x < hi)),
{
    let ghost start = set@;
    for x in lo..hi
        invariant
            set@ == start.union(Set::new(|y: u32| lo <= y && y < x)),
    {
        set.insert(x);
        assert(set@ =~= start.union(Set::new(|y: u32| lo <= y && y < x + 1)));
    }
    assert(set@ =~= start.union(Set::new(|y: u32| lo <= y && y < hi)));
}

/// Builds the hash set of the alphabet's code points.
fn build_alphabet_codes() -> (r: HashSet<u32>)
    ensures
        r@ == alphabet_codes(),
{
    let mut set: HashSet<u32> = HashSet::new();
    insert_range(&mut set, '1' as u32, '9' as u32 + 1);
    insert_range(&mut set, 'a' as u32, 'z' as u32 + 1);
    insert_range(&mut set, 'A' as u32, 'Z' as u32 + 1);
    assert(set@ =~= alphabet_codes());
    set
}

#[verifier::external_type_specification]
#[verifier::external_body]
#[verifier::reject_recursive_types(T)]
pub struct ExOnceCell<T>(OnceCell<T>);

/// Relies on once_cell's `sync::OnceCell::new`, which makes an empty cell.
pub assume_specification<T>[ OnceCell::<T>::new ]() -> OnceCell<T>;

/// The alphabet as a hash set of code points, built on first use and kept
/// for as long as the table lives. Building is thread safe and happens at
/// most once per table.
pub struct AlphabetTable {
    cell: OnceCell<HashSet<u32>>,
}

impl AlphabetTable {
    /// Makes a table whose set is not built yet.
    pub fn new() -> (r: Self) {
        AlphabetTable { cell: OnceCell::new() }
    }

    /// Relies on once_cell's `sync::OnceCell::get_or_init`: it returns the
    /// value the cell holds and, when the cell is empty, first fills it with
    /// what the given closure returns (one closure runs, even under
    /// concurrent callers). The cell is private to this type and is filled
    /// nowhere else, always by `build_alphabet_codes`.
    #[verifier::external_body]
    fn codes(&self) -> (r: &HashSet<u32>)
        ensures
            r@ == alphabet_codes(),
    {
        self.cell.get_or_init(|| build_alphabet_codes())
    }

    /// Builds the set unless it has been built already.
    pub fn ensure_initialized(&self) {
        let _ = self.codes();
    }

    /// Whether `c` may appear in a seed.
    pub fn contains(&self, c: char) -> (r: bool)
        ensures
            r == is_alphabet_char(c),
    {
        self.codes().contains(&(c as u32))
    }
}

} // verus!
