use vstd::prelude::*;
use vstd::std_specs::iter::IteratorSpec;

use crate::component::{Component, COMPONENT_COUNT};
use crate::presets::ASCII_FULL;

verus! {

/// How column widths are decided when a table is laid out.
pub enum ContentArrangement {
    /// No automatic width calculation; content may overflow.
    /// Constraints on columns are still respected.
    Disabled,
    /// Column widths follow the terminal width and content length, and
    /// content wraps. Constraints on columns are still respected.
    Automatic,
}

/// What a preset character does to its component: a space removes the
/// mapping, any other character becomes the mapping.
pub open spec fn preset_entry(ch: char) -> Option<char> {
    if ch == ' ' {
        None
    } else {
        Some(ch)
    }
}

/// The style map after loading preset `s` onto `m`: position `i` is set by
/// `s[i]` where `s` reaches that far, and kept otherwise.
pub open spec fn preset_applied(m: Seq<Option<char>>, s: Seq<char>) -> Seq<Option<char>> {
    Seq::new(m.len(), |i: int| if i < s.len() { preset_entry(s[i]) } else { m[i] })
}

/// The style map after applying modifier `s` to `m`: position `i` takes
/// `s[i]` where `s` reaches that far and `s[i]` is not a space, and is kept
/// otherwise.
pub open spec fn modifier_applied(m: Seq<Option<char>>, s: Seq<char>) -> Seq<Option<char>> {
    Seq::new(
        m.len(),
        |i: int|
            if i < s.len() && s[i] != ' ' {
                Some(s[i])
            } else {
                m[i]
            },
    )
}

/// The style map after setting component `c` to `ch`: a character
/// overwrites the mapping, nothing leaves the map as it was.
pub open spec fn style_set(m: Seq<Option<char>>, c: Component, ch: Option<char>) -> Seq<
    Option<char>,
> {
    match ch {
        Some(x) => m.update(c.ordinal() as int, Some(x)),
        None => m,
    }
}

/// The text drawn for a mapping when something must be drawn: the
/// character itself, or a single space in its place.
pub open spec fn shown(ch: Option<char>) -> Seq<char> {
    match ch {
        Some(x) => seq![x],
        None => seq![' '],
    }
}

/// The style map of a fresh table style: the default preset loaded onto an
/// empty map.
pub open spec fn default_style() -> Seq<Option<char>> {
    preset_applied(Seq::new(COMPONENT_COUNT as nat, |i: int| None), ASCII_FULL@)
}

/// Relies on `char`'s `Display` (through `ToString::to_string`): the text is
/// the character alone.
#[verifier::external_body]
fn char_text(ch: char) -> (r: String)
    ensures
        r@ == seq![ch],
{
    ch.to_string()
}

/// The characters used to draw each component of a table.
///
/// Its view holds, at the position of each component, the character drawn
/// for it, or nothing where the component is not drawn.
#[derive(Debug)]
pub struct TableStyle {
    pub(crate) has_header: bool,
    style: Vec<Option<char>>,
}

impl View for TableStyle {
    type V = Seq<Option<char>>;

    closed spec fn view(&self) -> Seq<Option<char>> {
        self.style@
    }
}

impl Clone for TableStyle {
    /// A copy with the same characters, independent of the original.
    fn clone(&self) -> (r: Self)
        ensures
            r@ == self@,
            r.header() == self.header(),
    {
        TableStyle { has_header: self.has_header, style: self.style.clone() }
    }
}

impl TableStyle {
    /// Whether the table that owns this style has a header row.
    pub closed spec fn header(&self) -> bool {
        self.has_header
    }

    /// A style map holds one entry per component.
    pub open spec fn wf(&self) -> bool {
        self@.len() == COMPONENT_COUNT
    }

    /// A new style, with the default preset `ASCII_FULL` loaded.
    pub fn new() -> (r: Self)
        ensures
            r.wf(),
            r@ == default_style(),
            r.header() == false,
    {
        let mut style: Vec<Option<char>> = Vec::new();
        let mut i: usize = 0;
        while i < COMPONENT_COUNT
            invariant
                i <= COMPONENT_COUNT,
                style@ =~= Seq::new(i as nat, |j: int| None::<char>),
            decreases COMPONENT_COUNT - i,
        {
            style.push(None);
            i += 1;
        }
        let mut table_style = TableStyle { has_header: false, style };
        table_style.load_preset(ASCII_FULL);
        table_style
    }

    /// Loads a preset: its characters configure the components in
    /// canonical order. A space removes the component's mapping, so that it
    /// is not drawn; any other character becomes its mapping. Components
    /// past the end of a short preset keep their mapping, and characters
    /// past the last component are ignored.
    pub fn load_preset(&mut self, preset: &str)
        requires
            old(self).wf(),
        ensures
            final(self).wf(),
            final(self)@ == preset_applied(old(self)@, preset@),
            final(self).header() == old(self).header(),
            forall|i: int|
                0 <= i < COMPONENT_COUNT && i < preset@.len() ==> if preset@[i] == ' ' {
                    final(self)@[i] is None
                } else {
                    final(self)@[i] == Some(preset@[i])
                },
            forall|i: int| preset@.len() <= i < COMPONENT_COUNT ==> final(self)@[i] == old(self)@[i],
    {
        let mut chars = preset.chars();
        let mut i: usize = 0;
        while i < COMPONENT_COUNT
            invariant
                i <= COMPONENT_COUNT,
                i <= preset@.len(),
                chars.remaining() == preset@.skip(i as int),
                self.style@.len() == COMPONENT_COUNT,
                old(self)@.len() == COMPONENT_COUNT,
                self.has_header == old(self).has_header,
                forall|j: int| 0 <= j < i ==> self.style@[j] == preset_entry(preset@[j]),
                forall|j: int| i <= j < COMPONENT_COUNT ==> self.style@[j] == old(self)@[j],
            ensures
                i == COMPONENT_COUNT || i == preset@.len(),
            decreases COMPONENT_COUNT - i,
        {
            match chars.next() {
                Some(ch) => {
                    if ch == ' ' {
                        self.style.set(i, None);
                    } else {
                        self.style.set(i, Some(ch));
                    }
                    i += 1;
                },
                None => break,
            }
        }
        assert(self@ =~= preset_applied(old(self)@, preset@));
    }

    /// Applies a modifier: its characters overwrite the components in
    /// canonical order, except that a space leaves its component as it is.
    /// Characters past the last component are ignored. Returns the style
    /// itself, so that calls can be chained.
    pub fn apply_modifier(&mut self, modifier: &str) -> (r: &mut Self)
        requires
            old(self).wf(),
        ensures
            r.wf(),
            r@ == modifier_applied(old(self)@, modifier@),
            r.header() == old(self).header(),
            forall|i: int|
                0 <= i < COMPONENT_COUNT && i < modifier@.len() ==> if modifier@[i] == ' ' {
                    r@[i] == old(self)@[i]
                } else {
                    r@[i] == Some(modifier@[i])
                },
            forall|i: int| modifier@.len() <= i < COMPONENT_COUNT ==> r@[i] == old(self)@[i],
            *final(self) == *final(r),
    {
        let mut chars = modifier.chars();
        let mut i: usize = 0;
        while i < COMPONENT_COUNT
            invariant
                i <= COMPONENT_COUNT,
                i <= modifier@.len(),
                chars.remaining() == modifier@.skip(i as int),
                self.style@.len() == COMPONENT_COUNT,
                old(self)@.len() == COMPONENT_COUNT,
                self.has_header == old(self).has_header,
                forall|j: int|
                    0 <= j < i ==> self.style@[j] == if modifier@[j] == ' ' {
                        old(self)@[j]
                    } else {
                        Some(modifier@[j])
                    },
                forall|j: int| i <= j < COMPONENT_COUNT ==> self.style@[j] == old(self)@[j],
            ensures
                i == COMPONENT_COUNT || i == modifier@.len(),
            decreases COMPONENT_COUNT - i,
        {
            match chars.next() {
                Some(ch) => {
                    if ch != ' ' {
                        self.style.set(i, Some(ch));
                    }
                    i += 1;
                },
                None => break,
            }
        }
        assert(self@ =~= modifier_applied(old(self)@, modifier@));
        self
    }

    /// Sets the character drawn for one component. `None` leaves the
    /// component as it is. Returns the style itself, so that calls can be
    /// chained.
    pub fn set_style(&mut self, component: Component, character: Option<char>) -> (r: &mut Self)
        requires
            old(self).wf(),
        ensures
            r.wf(),
            r@ == style_set(old(self)@, component, character),
            r.header() == old(self).header(),
            character is None ==> r@ == old(self)@,
            character is Some ==> r@[component.ordinal() as int] == character,
            forall|i: int|
                0 <= i < COMPONENT_COUNT && i != component.ordinal() ==> r@[i] == old(self)@[i],
            *final(self) == *final(r),
    {
        match character {
            Some(ch) => {
                self.style.set(component.position(), Some(ch));
            },
            None => {},
        }
        self
    }

    /// The character currently drawn for a component, if any.
    pub fn get_style(&mut self, component: Component) -> (r: Option<char>)
        requires
            old(self).wf(),
        ensures
            *final(self) == *old(self),
            r == old(self)@[component.ordinal() as int],
    {
        self.style[component.position()]
    }

    /// The text drawn for a component: its character, or a single space
    /// where it has none.
    pub fn style_or_default(&self, component: Component) -> (r: String)
        requires
            self.wf(),
        ensures
            r@ == shown(self@[component.ordinal() as int]),
    {
        match self.style[component.position()] {
            None => char_text(' '),
            Some(ch) => char_text(ch),
        }
    }

    /// Whether a component is drawn at all.
    pub fn style_exists(&self, component: Component) -> (r: bool)
        requires
            self.wf(),
        ensures
            r == self@[component.ordinal() as int] is Some,
    {
        self.style[component.position()].is_some()
    }
}

} // verus!
