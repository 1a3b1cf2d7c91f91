use vstd::prelude::*;

use crate::component::{Component, COMPONENT_COUNT};
use crate::table::{preset_applied, shown, style_set};

verus! {

/// A component without a mapping is reported as not drawn by
/// `style_exists`, and `style_or_default` gives a single space for it.
pub proof fn lemma_unmapped_component_reads_blank(m: Seq<Option<char>>, c: Component)
    requires
        m.len() == COMPONENT_COUNT,
        m[c.ordinal() as int] is None,
    ensures
        !(m[c.ordinal() as int] is Some),
        shown(m[c.ordinal() as int]) == seq![' '],
{
}

/// Setting a component to a character and then reading it back gives that
/// character.
pub proof fn lemma_set_then_get(m: Seq<Option<char>>, c: Component, x: char)
    requires
        m.len() == COMPONENT_COUNT,
    ensures
        style_set(m, c, Some(x)).len() == COMPONENT_COUNT,
        style_set(m, c, Some(x))[c.ordinal() as int] == Some(x),
{
    c.lemma_ordinal_round_trip();
}

/// Setting a component to nothing leaves the whole style map unchanged.
pub proof fn lemma_set_none_unchanged(m: Seq<Option<char>>, c: Component)
    ensures
        style_set(m, c, None) == m,
{
}

/// Loading the same preset twice gives the same style map as loading it
/// once.
pub proof fn lemma_preset_idempotent(m: Seq<Option<char>>, s: Seq<char>)
    ensures
        preset_applied(preset_applied(m, s), s) == preset_applied(m, s),
{
    assert(preset_applied(preset_applied(m, s), s) =~= preset_applied(m, s));
}

} // verus!
