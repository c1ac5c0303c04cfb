//! Interned strings, held in `string_cache` atoms.
use vstd::prelude::*;

use precomputed_hash::PrecomputedHash;
use string_cache::DefaultAtom;

verus! {

#[verifier::external_type_specification]
#[verifier::external_body]
#[verifier::reject_recursive_types(Static)]
pub struct ExAtom<Static>(string_cache::Atom<Static>);

#[verifier::external_type_specification]
#[verifier::external_body]
pub struct ExEmptyStaticAtomSet(string_cache::EmptyStaticAtomSet);

/// The text that an atom holds: an atom is a handle on one interned string,
/// and this names its contents, which `Deref<Target = str>` gives back.
pub uninterp spec fn atom_chars(atom: DefaultAtom) -> Seq<char>;

/// `Atom::from(&str)`: interns `s`. Its source packs the empty string as the
/// static empty atom, a string of up to seven bytes inline, and any other in
/// the dynamic set; in each case the atom holds exactly the text of `s`.
#[verifier::external_body]
pub(crate) fn atom_from_str(s: &str) -> (atom: DefaultAtom)
    ensures
        atom_chars(atom) == s@,
{
    DefaultAtom::from(s)
}

/// `Deref<Target = str>` of an atom: the text that the atom holds.
#[verifier::external_body]
pub(crate) fn atom_as_str(atom: &DefaultAtom) -> (s: &str)
    ensures
        s@ == atom_chars(*atom),
{
    &**atom
}

/// `Clone::clone` of an atom, which the derived `Clone` of the values of this
/// library calls; those derived impls carry no contract, and no function of
/// the library clones an atom itself. Its source copies the packed representation of the atom unchanged
/// (and counts one more reference to a dynamic entry), so the copy is the
/// same value.
pub assume_specification<Static> [<string_cache::Atom<Static> as std::clone::Clone>::clone] (
    atom: &string_cache::Atom<Static>,
) -> (copy: string_cache::Atom<Static>)
    where
        Static: string_cache::StaticAtomSet,
    ensures
        copy == *atom,
;

/// The hash that `string_cache` stores for an atom of more than seven bytes
/// of text: the `g` part of `phf_shared::hash` of the text under the key of
/// the empty static set (0), a SipHash-1-3 that `phf_shared` keeps the same
/// on every architecture.
pub uninterp spec fn long_atom_hash(text: Seq<char>) -> u32;

/// `PrecomputedHash::precomputed_hash` of an atom, which calls
/// `Atom::get_hash`. Its source gives the empty atom the hash that the empty
/// static set stores for `""` (`0x3ddddef3`), and an atom of more than seven
/// bytes (so of more than seven characters) the hash under which the
/// dynamic set holds it, [`long_atom_hash`] of its text. Nothing is stated for
/// texts of one to seven bytes: their hash is computed from the packed bytes
/// of the atom, whose layout depends on the machine's byte order.
#[verifier::external_body]
pub(crate) fn atom_precomputed_hash(atom: &DefaultAtom) -> (hash: u32)
    ensures
        atom_chars(*atom).len() == 0 ==> hash == 0x3ddddef3u32,
        atom_chars(*atom).len() > 7 ==> hash == long_atom_hash(atom_chars(*atom)),
{
    atom.precomputed_hash()
}

} // verus!
