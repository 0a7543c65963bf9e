use vstd::prelude::*;
use core::ops::Range;
use vstd::string::StringSliceAdditionalSpecFns;

use crate::codec::{i32_to_le, le_bytes_i32, le_bytes_u64, u64_to_le};
use crate::values::ValueType;

verus! {

/// Bytes of an entry frame taken by everything but the name:
/// flags (1), variant tag (1) and constraint bits (8).
pub const ENTRY_HEADER_LEN: usize = 10;

/// Longest entry name, in UTF-8 bytes, that fits in an entry frame.
pub const MAX_ENTRY_NAME_LEN: usize = 54;

/// A name is valid when it is non-empty and fits in an entry frame.
pub open spec fn valid_name(name: &str) -> bool {
    1 <= name.spec_bytes().len() <= MAX_ENTRY_NAME_LEN
}

/// Tells whether `name` can name an entry.
pub fn is_valid_name(name: &str) -> (r: bool)
    ensures
        r == valid_name(name),
{
    let n = name.as_bytes().len();
    1 <= n && n <= MAX_ENTRY_NAME_LEN
}

/// An ordered list of display strings, selected by index.
pub trait OptionValueProvider {
    spec fn spec_len(&self) -> nat;

    fn get(&self, index: usize) -> (r: Option<&'static str>)
        ensures
            r is Some <==> index < self.spec_len(),
    ;

    fn len(&self) -> (r: usize)
        ensures
            r == self.spec_len(),
    ;
}

/// A fixed list of option labels.
#[derive(Clone, Debug)]
pub struct OptionValues {
    pub values: Vec<&'static str>,
}

impl OptionValueProvider for OptionValues {
    open spec fn spec_len(&self) -> nat {
        self.values@.len()
    }

    fn get(&self, index: usize) -> (r: Option<&'static str>) {
        if index < self.values.len() {
            Some(self.values[index])
        } else {
            None
        }
    }

    fn len(&self) -> (r: usize) {
        self.values.len()
    }
}

/// Colour or role of an action, shown to the user.
#[derive(Copy, Clone, Debug, PartialEq, Eq, Structural)]
pub enum ActionVariant {
    Main,
    Normal,
    Danger,
    Green,
    Blue,
    Teal,
    Pink,
    Purple,
    Cyan,
    Orange,
    Yellow,
}

impl ActionVariant {
    /// The one-byte wire tag of each variant (an ASCII letter).
    pub open spec fn spec_code(self) -> u8 {
        match self {
            ActionVariant::Main => 109,
            ActionVariant::Normal => 110,
            ActionVariant::Danger => 100,
            ActionVariant::Green => 103,
            ActionVariant::Blue => 98,
            ActionVariant::Teal => 116,
            ActionVariant::Pink => 112,
            ActionVariant::Purple => 108,
            ActionVariant::Cyan => 99,
            ActionVariant::Orange => 111,
            ActionVariant::Yellow => 121,
        }
    }

    pub fn code(&self) -> (r: u8)
        ensures
            r == self.spec_code(),
    {
        match self {
            ActionVariant::Main => 109,
            ActionVariant::Normal => 110,
            ActionVariant::Danger => 100,
            ActionVariant::Green => 103,
            ActionVariant::Blue => 98,
            ActionVariant::Teal => 116,
            ActionVariant::Pink => 112,
            ActionVariant::Purple => 108,
            ActionVariant::Cyan => 99,
            ActionVariant::Orange => 111,
            ActionVariant::Yellow => 121,
        }
    }
}

/// What an entry is: a section, a field of some value type, or an action.
#[derive(Copy, Clone, Debug, PartialEq, Eq, Structural)]
pub enum EntryVariant {
    Action(ActionVariant),
    Field(ValueType),
    Section,
}

impl EntryVariant {
    pub open spec fn spec_bits(self) -> u8 {
        match self {
            EntryVariant::Action(a) => a.spec_code(),
            EntryVariant::Field(t) => t.spec_code(),
            EntryVariant::Section => 0,
        }
    }

    /// The variant's one-byte wire tag.
    pub fn bits(&self) -> (r: u8)
        ensures
            r == self.spec_bits(),
    {
        match self {
            EntryVariant::Action(a) => a.code(),
            EntryVariant::Field(t) => t.code(),
            EntryVariant::Section => 0,
        }
    }
}

/// Limits on the values a field may hold.
#[derive(Debug)]
pub enum Constraints {
    Unconstrained,
    /// Inclusive bounds of an integer; for text, `end` is the longest length in bytes.
    Range(Range<i32>),
    /// Length in bytes.
    Length(u64),
    /// The labels an option field chooses from.
    Values(OptionValues),
}

impl Constraints {
    /// Whether these constraints suit an entry of `variant`: a range bounds an
    /// integer or a text's length, a length sizes bytes or text, a list of
    /// values serves an options field; sections and actions have none.
    pub open spec fn fits(&self, variant: EntryVariant) -> bool {
        match self {
            Constraints::Unconstrained => true,
            Constraints::Range(_) => variant == EntryVariant::Field(ValueType::Integer) || variant
                == EntryVariant::Field(ValueType::Text) || variant == EntryVariant::Field(
                ValueType::Secret,
            ),
            Constraints::Length(_) => variant == EntryVariant::Field(ValueType::Bytes) || variant
                == EntryVariant::Field(ValueType::Text) || variant == EntryVariant::Field(
                ValueType::Secret,
            ),
            Constraints::Values(_) => variant == EntryVariant::Field(ValueType::Options),
        }
    }

    /// Tells whether these constraints suit an entry of `variant`.
    pub fn check_fits(&self, variant: EntryVariant) -> (r: bool)
        ensures
            r == self.fits(variant),
    {
        match self {
            Constraints::Unconstrained => true,
            Constraints::Range(_) => match variant {
                EntryVariant::Field(ValueType::Integer) | EntryVariant::Field(ValueType::Text)
                | EntryVariant::Field(ValueType::Secret) => true,
                _ => false,
            },
            Constraints::Length(_) => match variant {
                EntryVariant::Field(ValueType::Bytes) | EntryVariant::Field(ValueType::Text)
                | EntryVariant::Field(ValueType::Secret) => true,
                _ => false,
            },
            Constraints::Values(_) => match variant {
                EntryVariant::Field(ValueType::Options) => true,
                _ => false,
            },
        }
    }

    /// A range has its start at or below its end.
    pub open spec fn wf(&self) -> bool {
        match self {
            Constraints::Range(r) => r.start <= r.end,
            _ => true,
        }
    }

    /// The eight constraint bytes of an entry frame.
    pub open spec fn spec_bits(&self) -> Seq<u8> {
        match self {
            Constraints::Unconstrained => Seq::new(8, |i: int| 0u8),
            Constraints::Range(r) => le_bytes_i32(r.start) + le_bytes_i32(r.end),
            Constraints::Length(n) => le_bytes_u64(*n),
            Constraints::Values(v) => le_bytes_u64(v.values@.len() as u64),
        }
    }

    pub fn bits(&self) -> (r: [u8; 8])
        ensures
            r@ == self.spec_bits(),
    {
        match self {
            Constraints::Unconstrained => {
                let r: [u8; 8] = [0, 0, 0, 0, 0, 0, 0, 0];
                assert(r@ =~= self.spec_bits());
                r
            },
            Constraints::Range(range) => {
                let s = i32_to_le(range.start);
                let e = i32_to_le(range.end);
                let r: [u8; 8] = [s[0], s[1], s[2], s[3], e[0], e[1], e[2], e[3]];
                assert(r@ =~= self.spec_bits());
                r
            },
            Constraints::Length(n) => u64_to_le(*n),
            Constraints::Values(v) => u64_to_le(v.len() as u64),
        }
    }
}

/// Flag bit set for a read-only entry.
pub const READ_ONLY: u8 = 1;

/// Flag bit set for an entry with help text.
pub const HAS_HELP: u8 = 2;

/// Flag bit set for an entry with an icon.
pub const HAS_ICON: u8 = 4;

/// The flag byte made of three booleans.
pub open spec fn flag_bits(read_only: bool, has_help: bool, has_icon: bool) -> u8 {
    ((if read_only { 1u8 } else { 0u8 }) | (if has_help { 2u8 } else { 0u8 }) | (if has_icon {
        4u8
    } else {
        0u8
    })) as u8
}

/// Whether the bit `flag` is set in `bits`.
pub open spec fn has_flag(bits: u8, flag: u8) -> bool {
    bits & flag != 0
}

/// The flag byte of an entry frame.
#[derive(Copy, Clone, Debug, PartialEq, Eq, Structural)]
pub struct ExtraFlags {
    pub bits: u8,
}

impl ExtraFlags {
    pub fn empty() -> (r: ExtraFlags)
        ensures
            r.bits == 0,
    {
        ExtraFlags { bits: 0 }
    }

    pub fn from_bits(bits: u8) -> (r: ExtraFlags)
        ensures
            r.bits == bits,
    {
        ExtraFlags { bits }
    }

    pub fn bits(&self) -> (r: u8)
        ensures
            r == self.bits,
    {
        self.bits
    }

    /// Sets or clears the bits of `flag`.
    pub fn set(&mut self, flag: u8, value: bool)
        ensures
            final(self).bits == if value {
                old(self).bits | flag
            } else {
                old(self).bits & !flag
            },
    {
        if value {
            self.bits = self.bits | flag;
        } else {
            self.bits = self.bits & !flag;
        }
    }

    /// Whether every bit of `flag` is set.
    pub fn contains(&self, flag: u8) -> (r: bool)
        ensures
            r == (self.bits & flag == flag),
    {
        self.bits & flag == flag
    }
}

/// The immutable description of one entry of a schema.
#[derive(Debug)]
pub struct EntryDesc {
    pub variant: EntryVariant,
    pub readonly: bool,
    pub name: &'static str,
    pub constraints: Constraints,
    pub help: Option<&'static str>,
    pub icon: Option<&'static str>,
}

impl EntryDesc {
    pub open spec fn wf(&self) -> bool {
        valid_name(self.name) && self.constraints.wf() && self.constraints.fits(self.variant)
    }

    pub open spec fn spec_flags(&self) -> u8 {
        flag_bits(self.readonly, self.help is Some, self.icon is Some)
    }

    /// Builds a descriptor; a name that is empty or too long is a schema error,
    /// and so are a range whose start lies above its end and constraints that do
    /// not suit the variant.
    pub fn new(
        name: &'static str,
        variant: EntryVariant,
        readonly: bool,
        constraints: Constraints,
        help: Option<&'static str>,
        icon: Option<&'static str>,
    ) -> (r: EntryDesc)
        requires
            valid_name(name),
            constraints.wf(),
            constraints.fits(variant),
        ensures
            r.wf(),
            r.name == name,
            r.variant == variant,
            r.readonly == readonly,
            r.constraints == constraints,
            r.help == help,
            r.icon == icon,
    {
        EntryDesc { variant, readonly, name, constraints, help, icon }
    }

    /// Tells whether the descriptor is well formed.
    pub fn check(&self) -> (r: bool)
        ensures
            r == self.wf(),
    {
        is_valid_name(self.name) && match &self.constraints {
            Constraints::Range(range) => range.start <= range.end,
            _ => true,
        } && self.constraints.check_fits(self.variant)
    }

    /// The entry frame: flags, variant tag, constraint bits, then the name's
    /// UTF-8 bytes, with zeros after them.
    pub open spec fn spec_frame(&self) -> Seq<u8> {
        let head = seq![self.spec_flags(), self.variant.spec_bits()] + self.constraints.spec_bits()
            + self.name.spec_bytes();
        Seq::new(64, |i: int| if i < head.len() { head[i] } else { 0u8 })
    }

    pub fn to_frame(&self) -> (r: [u8; 64])
        requires
            self.wf(),
        ensures
            r@ == self.spec_frame(),
    {
        let mut r = [0u8; 64];
        r[0] = self.flags().bits();
        r[1] = self.variant.bits();
        let c = self.constraints.bits();
        let mut i: usize = 0;
        while i < 8
            invariant
                i <= 8,
                r@.len() == 64,
                r@[0] == self.spec_flags(),
                r@[1] == self.variant.spec_bits(),
                c@ == self.constraints.spec_bits(),
                forall|j: int| 2 <= j < 2 + i ==> #[trigger] r@[j] == c@[j - 2],
                forall|j: int| ENTRY_HEADER_LEN <= j < 64 ==> #[trigger] r@[j] == 0,
            decreases 8 - i,
        {
            r[2 + i] = c[i];
            i = i + 1;
        }
        let name = self.name.as_bytes();
        let n = name.len();
        let mut k: usize = 0;
        while k < n
            invariant
                k <= n,
                n == self.name.spec_bytes().len(),
                n <= MAX_ENTRY_NAME_LEN,
                name@ == self.name.spec_bytes(),
                r@.len() == 64,
                r@[0] == self.spec_flags(),
                r@[1] == self.variant.spec_bits(),
                c@ == self.constraints.spec_bits(),
                forall|j: int| 2 <= j < 10 ==> #[trigger] r@[j] == c@[j - 2],
                forall|j: int| 10 <= j < 10 + k ==> #[trigger] r@[j] == name@[j - 10],
                forall|j: int| 10 + k <= j < 64 ==> #[trigger] r@[j] == 0,
            decreases n - k,
        {
            r[ENTRY_HEADER_LEN + k] = name[k];
            k = k + 1;
        }
        assert(r@ =~= self.spec_frame());
        r
    }

    /// The read-only, has-help and has-icon bits.
    pub fn flags(&self) -> (r: ExtraFlags)
        ensures
            r.bits == self.spec_flags(),
    {
        let ro: u8 = if self.readonly { READ_ONLY } else { 0 };
        let h: u8 = if self.help.is_some() { HAS_HELP } else { 0 };
        let i: u8 = if self.icon.is_some() { HAS_ICON } else { 0 };
        ExtraFlags::from_bits(ro | h | i)
    }
}

/// The flag byte holds its three booleans exactly: each reads back from its bit.
pub proof fn lemma_flags_round_trip(read_only: bool, has_help: bool, has_icon: bool)
    ensures
        has_flag(flag_bits(read_only, has_help, has_icon), READ_ONLY) == read_only,
        has_flag(flag_bits(read_only, has_help, has_icon), HAS_HELP) == has_help,
        has_flag(flag_bits(read_only, has_help, has_icon), HAS_ICON) == has_icon,
        flag_bits(read_only, has_help, has_icon) < 8,
{
    let a: u8 = if read_only { 1 } else { 0 };
    let b: u8 = if has_help { 2 } else { 0 };
    let c: u8 = if has_icon { 4 } else { 0 };
    assert(((a | b | c) & 1u8 != 0) == (a == 1u8) && ((a | b | c) & 2u8 != 0) == (b == 2u8) && ((
    a | b | c) & 4u8 != 0) == (c == 4u8) && (a | b | c) < 8u8) by (bit_vector)
        requires
            a == 0u8 || a == 1u8,
            b == 0u8 || b == 2u8,
            c == 0u8 || c == 4u8,
    ;
}

/// The flag byte of a descriptor gives back its read-only flag and whether it
/// has help and an icon.
pub proof fn lemma_entry_flags(desc: &EntryDesc)
    ensures
        has_flag(desc.spec_flags(), READ_ONLY) == desc.readonly,
        has_flag(desc.spec_flags(), HAS_HELP) == desc.help is Some,
        has_flag(desc.spec_flags(), HAS_ICON) == desc.icon is Some,
{
    lemma_flags_round_trip(desc.readonly, desc.help is Some, desc.icon is Some);
}

/// A section: a named group of fields.
#[derive(Debug, PartialEq, Eq)]
pub struct SectionEntry {
    pub name: &'static str,
    pub icon: Option<&'static str>,
    pub help: Option<&'static str>,
}

impl SectionEntry {
    pub fn as_entry(self) -> (r: EntryDesc)
        requires
            valid_name(self.name),
        ensures
            r.wf(),
            r.name == self.name,
            r.variant == EntryVariant::Section,
            r.readonly,
            r.constraints is Unconstrained,
            r.help == self.help,
            r.icon == self.icon,
    {
        EntryDesc::new(
            self.name,
            EntryVariant::Section,
            true,
            Constraints::Unconstrained,
            self.help,
            self.icon,
        )
    }

    pub fn with_icon(self, icon: &'static str) -> (r: SectionEntry)
        ensures
            r == (SectionEntry { icon: Some(icon), ..self }),
    {
        SectionEntry { icon: Some(icon), ..self }
    }

    pub fn with_help(self, help: &'static str) -> (r: SectionEntry)
        ensures
            r == (SectionEntry { help: Some(help), ..self }),
    {
        SectionEntry { help: Some(help), ..self }
    }
}

/// A section named `name`, with no icon or help.
pub fn section(name: &'static str) -> (r: SectionEntry)
    ensures
        r == (SectionEntry { name, icon: None, help: None }),
{
    SectionEntry { name, icon: None, help: None }
}

/// A config or info field under construction; `readonly` stays open until
/// `writable` or `readonly` settles it.
#[derive(Debug)]
pub struct FieldEntry {
    pub value_type: ValueType,
    pub readonly: Option<bool>,
    pub name: &'static str,
    pub constraints: Constraints,
    pub help: Option<&'static str>,
    pub icon: Option<&'static str>,
}

impl FieldEntry {
    /// The descriptor; a field whose writability was never declared is a schema error.
    pub fn as_entry(self) -> (r: EntryDesc)
        requires
            valid_name(self.name),
            self.constraints.wf(),
            self.constraints.fits(EntryVariant::Field(self.value_type)),
            self.readonly is Some,
        ensures
            r.wf(),
            r.name == self.name,
            r.variant == EntryVariant::Field(self.value_type),
            r.readonly == self.readonly->Some_0,
            r.constraints == self.constraints,
            r.help == self.help,
            r.icon == self.icon,
    {
        let readonly = match self.readonly {
            Some(b) => b,
            None => true,
        };
        EntryDesc::new(
            self.name,
            EntryVariant::Field(self.value_type),
            readonly,
            self.constraints,
            self.help,
            self.icon,
        )
    }

    pub fn with_icon(self, icon: &'static str) -> (r: FieldEntry)
        ensures
            r == (FieldEntry { icon: Some(icon), ..self }),
    {
        FieldEntry { icon: Some(icon), ..self }
    }

    pub fn with_help(self, help: &'static str) -> (r: FieldEntry)
        ensures
            r == (FieldEntry { help: Some(help), ..self }),
    {
        FieldEntry { help: Some(help), ..self }
    }

    /// Bounds the field's integer (inclusive) or its text length (`range.end`).
    pub fn with_range(self, range: Range<i32>) -> (r: FieldEntry)
        ensures
            r == (FieldEntry { constraints: Constraints::Range(range), ..self }),
    {
        FieldEntry { constraints: Constraints::Range(range), ..self }
    }

    pub fn with_type(self, value_type: ValueType) -> (r: FieldEntry)
        ensures
            r == (FieldEntry { value_type, ..self }),
    {
        FieldEntry { value_type, ..self }
    }

    pub fn writable(self) -> (r: FieldEntry)
        ensures
            r == (FieldEntry { readonly: Some(false), ..self }),
    {
        FieldEntry { readonly: Some(false), ..self }
    }

    pub fn readonly(self) -> (r: FieldEntry)
        ensures
            r == (FieldEntry { readonly: Some(true), ..self }),
    {
        FieldEntry { readonly: Some(true), ..self }
    }
}

/// A field made of its parts, with no help or icon.
pub open spec fn plain_field(
    name: &'static str,
    value_type: ValueType,
    constraints: Constraints,
    readonly: Option<bool>,
) -> FieldEntry {
    FieldEntry { value_type, readonly, name, constraints, help: None, icon: None }
}

/// A read-only field of `size` raw bytes.
pub fn bytes(name: &'static str, size: u8) -> (r: FieldEntry)
    ensures
        r == plain_field(name, ValueType::Bytes, Constraints::Length(size as u64), Some(true)),
{
    FieldEntry {
        name,
        value_type: ValueType::Bytes,
        constraints: Constraints::Length(size as u64),
        readonly: Some(true),
        help: None,
        icon: None,
    }
}

/// A writable secret, masked in message form.
pub fn secret(name: &'static str) -> (r: FieldEntry)
    ensures
        r == plain_field(name, ValueType::Secret, Constraints::Unconstrained, Some(false)),
{
    FieldEntry {
        name,
        value_type: ValueType::Secret,
        constraints: Constraints::Unconstrained,
        readonly: Some(false),
        help: None,
        icon: None,
    }
}

/// A read-only status.
pub fn status(name: &'static str) -> (r: FieldEntry)
    ensures
        r == plain_field(name, ValueType::Status, Constraints::Unconstrained, Some(true)),
{
    FieldEntry {
        name,
        value_type: ValueType::Status,
        constraints: Constraints::Unconstrained,
        readonly: Some(true),
        help: None,
        icon: None,
    }
}

/// An integer field; its writability must still be declared.
pub fn integer(name: &'static str) -> (r: FieldEntry)
    ensures
        r == plain_field(name, ValueType::Integer, Constraints::Unconstrained, None),
{
    FieldEntry {
        name,
        value_type: ValueType::Integer,
        constraints: Constraints::Unconstrained,
        readonly: None,
        help: None,
        icon: None,
    }
}

/// A writable choice among `values`.
pub fn option(name: &'static str, values: OptionValues) -> (r: FieldEntry)
    ensures
        r == plain_field(name, ValueType::Options, Constraints::Values(values), Some(false)),
{
    FieldEntry {
        name,
        value_type: ValueType::Options,
        constraints: Constraints::Values(values),
        readonly: Some(false),
        help: None,
        icon: None,
    }
}

/// A read-only text.
pub fn info(name: &'static str) -> (r: FieldEntry)
    ensures
        r == plain_field(name, ValueType::Text, Constraints::Unconstrained, Some(true)),
{
    FieldEntry {
        name,
        value_type: ValueType::Text,
        constraints: Constraints::Unconstrained,
        readonly: Some(true),
        help: None,
        icon: None,
    }
}

/// A writable text.
pub fn config(name: &'static str) -> (r: FieldEntry)
    ensures
        r == plain_field(name, ValueType::Text, Constraints::Unconstrained, Some(false)),
{
    FieldEntry {
        name,
        value_type: ValueType::Text,
        constraints: Constraints::Unconstrained,
        readonly: Some(false),
        help: None,
        icon: None,
    }
}

/// An action the host can trigger.
#[derive(Debug, PartialEq, Eq)]
pub struct ActionEntry {
    pub name: &'static str,
    pub variant: ActionVariant,
    pub help: Option<&'static str>,
    pub icon: Option<&'static str>,
}

/// A normal action named `name`.
pub fn action(name: &'static str) -> (r: ActionEntry)
    ensures
        r == (ActionEntry { name, variant: ActionVariant::Normal, help: None, icon: None }),
{
    ActionEntry { name, variant: ActionVariant::Normal, help: None, icon: None }
}

impl ActionEntry {
    pub fn as_entry(self) -> (r: EntryDesc)
        requires
            valid_name(self.name),
        ensures
            r.wf(),
            r.name == self.name,
            r.variant == EntryVariant::Action(self.variant),
            r.readonly,
            r.constraints is Unconstrained,
            r.help == self.help,
            r.icon == self.icon,
    {
        EntryDesc::new(
            self.name,
            EntryVariant::Action(self.variant),
            true,
            Constraints::Unconstrained,
            self.help,
            self.icon,
        )
    }

    pub fn with_icon(self, icon: &'static str) -> (r: ActionEntry)
        ensures
            r == (ActionEntry { icon: Some(icon), ..self }),
    {
        ActionEntry { icon: Some(icon), ..self }
    }

    pub fn with_help(self, help: &'static str) -> (r: ActionEntry)
        ensures
            r == (ActionEntry { help: Some(help), ..self }),
    {
        ActionEntry { help: Some(help), ..self }
    }
}

} // verus!