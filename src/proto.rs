use vstd::prelude::*;

use crate::entry::EntryDesc;

verus! {

/// Most entries of one category: each is named on the wire by one byte.
pub const MAX_ENTRIES: usize = 256;

/// One-byte tags of the entry categories on the wire (ASCII letters).
pub const ENTRY_SECTION: u8 = 115;

pub const ENTRY_CONFIG: u8 = 99;

pub const ENTRY_INFO: u8 = 105;

pub const ENTRY_ACTION: u8 = 97;

/// The category whose tag is `b`.
pub open spec fn entry_type_of(b: u8) -> Option<EntryType> {
    if b == ENTRY_SECTION {
        Some(EntryType::Section)
    } else if b == ENTRY_CONFIG {
        Some(EntryType::Config)
    } else if b == ENTRY_INFO {
        Some(EntryType::Info)
    } else if b == ENTRY_ACTION {
        Some(EntryType::Action)
    } else {
        None
    }
}

/// The category of an entry, as named on the wire.
#[derive(Copy, Clone, Debug, PartialEq, Eq, Structural)]
pub enum EntryType {
    Section,
    Config,
    Info,
    Action,
}

impl EntryType {
    pub open spec fn spec_code(self) -> u8 {
        match self {
            EntryType::Section => ENTRY_SECTION,
            EntryType::Config => ENTRY_CONFIG,
            EntryType::Info => ENTRY_INFO,
            EntryType::Action => ENTRY_ACTION,
        }
    }

    pub fn code(&self) -> (r: u8)
        ensures
            r == self.spec_code(),
    {
        match self {
            EntryType::Section => ENTRY_SECTION,
            EntryType::Config => ENTRY_CONFIG,
            EntryType::Info => ENTRY_INFO,
            EntryType::Action => ENTRY_ACTION,
        }
    }

    /// The category whose tag is `byte`, if any.
    pub fn from_code(byte: u8) -> (r: Option<EntryType>)
        ensures
            r == entry_type_of(byte),
            r matches Some(t) ==> t.spec_code() == byte,
    {
        if byte == ENTRY_SECTION {
            Some(EntryType::Section)
        } else if byte == ENTRY_CONFIG {
            Some(EntryType::Config)
        } else if byte == ENTRY_INFO {
            Some(EntryType::Info)
        } else if byte == ENTRY_ACTION {
            Some(EntryType::Action)
        } else {
            None
        }
    }
}

/// Typed index of an action: its position in declaration order.
pub trait ActionIndex: Sized + Copy {
    spec fn spec_index(self) -> nat;

    fn as_index(self) -> (r: usize)
        ensures
            r == self.spec_index(),
    ;

    /// The identifier at position `byte` among `count` declared ones, if there is one.
    fn from_byte(byte: u8, count: usize) -> (r: Option<Self>)
        ensures
            r is Some <==> (byte as nat) < count,
            r matches Some(x) ==> x.spec_index() == byte,
    ;
}

/// Typed index of a config field: its position in declaration order.
pub trait ConfigIndex: Sized + Copy {
    spec fn spec_index(self) -> nat;

    fn as_index(self) -> (r: usize)
        ensures
            r == self.spec_index(),
    ;

    /// The identifier at position `byte` among `count` declared ones, if there is one.
    fn from_byte(byte: u8, count: usize) -> (r: Option<Self>)
        ensures
            r is Some <==> (byte as nat) < count,
            r matches Some(x) ==> x.spec_index() == byte,
    ;
}

/// Typed index of a section: its position in declaration order.
pub trait SectionIndex: Sized + Copy {
    spec fn spec_index(self) -> nat;

    fn as_index(self) -> (r: usize)
        ensures
            r == self.spec_index(),
    ;

    /// The identifier at position `byte` among `count` declared ones, if there is one.
    fn from_byte(byte: u8, count: usize) -> (r: Option<Self>)
        ensures
            r is Some <==> (byte as nat) < count,
            r matches Some(x) ==> x.spec_index() == byte,
    ;
}

/// Typed index of an info field: its position in declaration order.
pub trait InfoIndex: Sized + Copy {
    spec fn spec_index(self) -> nat;

    fn as_index(self) -> (r: usize)
        ensures
            r == self.spec_index(),
    ;

    /// The identifier at position `byte` among `count` declared ones, if there is one.
    fn from_byte(byte: u8, count: usize) -> (r: Option<Self>)
        ensures
            r is Some <==> (byte as nat) < count,
            r matches Some(x) ==> x.spec_index() == byte,
    ;
}

/// A declared action.
#[derive(Copy, Clone, Debug, PartialEq, Eq, Structural)]
pub struct Action(pub u8);

/// A declared config field.
#[derive(Copy, Clone, Debug, PartialEq, Eq, Structural)]
pub struct ConfigField(pub u8);

/// A declared section.
#[derive(Copy, Clone, Debug, PartialEq, Eq, Structural)]
pub struct Section(pub u8);

/// A declared info field.
#[derive(Copy, Clone, Debug, PartialEq, Eq, Structural)]
pub struct InfoField(pub u8);

impl ActionIndex for Action {
    open spec fn spec_index(self) -> nat {
        self.0 as nat
    }

    fn as_index(self) -> (r: usize) {
        self.0 as usize
    }

    fn from_byte(byte: u8, count: usize) -> (r: Option<Self>) {
        if (byte as usize) < count {
            Some(Action(byte))
        } else {
            None
        }
    }
}

impl ConfigIndex for ConfigField {
    open spec fn spec_index(self) -> nat {
        self.0 as nat
    }

    fn as_index(self) -> (r: usize) {
        self.0 as usize
    }

    fn from_byte(byte: u8, count: usize) -> (r: Option<Self>) {
        if (byte as usize) < count {
            Some(ConfigField(byte))
        } else {
            None
        }
    }
}

impl SectionIndex for Section {
    open spec fn spec_index(self) -> nat {
        self.0 as nat
    }

    fn as_index(self) -> (r: usize) {
        self.0 as usize
    }

    fn from_byte(byte: u8, count: usize) -> (r: Option<Self>) {
        if (byte as usize) < count {
            Some(Section(byte))
        } else {
            None
        }
    }
}

impl InfoIndex for InfoField {
    open spec fn spec_index(self) -> nat {
        self.0 as nat
    }

    fn as_index(self) -> (r: usize) {
        self.0 as usize
    }

    fn from_byte(byte: u8, count: usize) -> (r: Option<Self>) {
        if (byte as usize) < count {
            Some(InfoField(byte))
        } else {
            None
        }
    }
}

/// A field of a section's layout: a config field or an info field.
#[derive(Copy, Clone, Debug, PartialEq, Eq, Structural)]
pub enum Field {
    Conf(ConfigField),
    Info(InfoField),
}

impl Field {
    pub open spec fn spec_bits(self) -> Seq<u8> {
        match self {
            Field::Conf(c) => seq![ENTRY_CONFIG, c.0],
            Field::Info(i) => seq![ENTRY_INFO, i.0],
        }
    }

    /// The field's category tag, then its index.
    pub fn bits(&self) -> (r: [u8; 2])
        ensures
            r@ == self.spec_bits(),
    {
        let r: [u8; 2] = match self {
            Field::Conf(c) => [ENTRY_CONFIG, c.0],
            Field::Info(i) => [ENTRY_INFO, i.0],
        };
        assert(r@ =~= self.spec_bits());
        r
    }
}

/// Errors of a malformed schema.
#[derive(Copy, Clone, Debug, PartialEq, Eq, Structural)]
pub enum SchemaError {
    /// An entry's name is empty or too long, its range is reversed, or its
    /// constraints do not suit its kind.
    InvalidEntry,
    /// A category already holds as many entries as one byte can name.
    TooManyEntries,
    /// A layout pair names a section or field that was not declared.
    UnknownEntry,
}

/// Tells whether every descriptor in `v` is well formed.
fn all_valid(v: &Vec<EntryDesc>) -> (r: bool)
    ensures
        r == all_wf(v@),
{
    let mut i: usize = 0;
    while i < v.len()
        invariant
            i <= v@.len(),
            forall|j: int| 0 <= j < i ==> (#[trigger] v@[j]).wf(),
        decreases v@.len() - i,
    {
        if !v[i].check() {
            return false;
        }
        i = i + 1;
    }
    true
}

/// Every descriptor in `v` is well formed.
pub open spec fn all_wf(v: Seq<EntryDesc>) -> bool {
    forall|i: int| 0 <= i < v.len() ==> (#[trigger] v[i]).wf()
}

/// The compiled schema: the descriptors of each category in declaration order,
/// and the layout pairs in declaration order.
#[derive(Debug)]
pub struct Proto {
    pub sections: Vec<EntryDesc>,
    pub config_fields: Vec<EntryDesc>,
    pub info_fields: Vec<EntryDesc>,
    pub actions: Vec<EntryDesc>,
    pub layout: Vec<(Section, Field)>,
}

impl Proto {
    /// Whether a layout pair names declared entries.
    pub open spec fn pair_ok(&self, p: (Section, Field)) -> bool {
        &&& (p.0.0 as nat) < self.sections@.len()
        &&& match p.1 {
            Field::Conf(c) => (c.0 as nat) < self.config_fields@.len(),
            Field::Info(i) => (i.0 as nat) < self.info_fields@.len(),
        }
    }

    /// The descriptors of one category.
    pub open spec fn category(&self, t: EntryType) -> Seq<EntryDesc> {
        match t {
            EntryType::Section => self.sections@,
            EntryType::Config => self.config_fields@,
            EntryType::Info => self.info_fields@,
            EntryType::Action => self.actions@,
        }
    }

    /// Every category but `changed` is as in `o`; so is the layout unless a
    /// category changed.
    pub open spec fn kept_except(&self, o: &Proto, changed: Option<EntryType>) -> bool {
        &&& forall|t: EntryType| Some(t) != changed ==> #[trigger] self.category(t) == o.category(t)
        &&& changed is Some ==> self.layout@ == o.layout@
    }

    pub open spec fn wf(&self) -> bool {
        &&& all_wf(self.sections@)
        &&& all_wf(self.config_fields@)
        &&& all_wf(self.info_fields@)
        &&& all_wf(self.actions@)
        &&& self.sections@.len() <= MAX_ENTRIES
        &&& self.config_fields@.len() <= MAX_ENTRIES
        &&& self.info_fields@.len() <= MAX_ENTRIES
        &&& self.actions@.len() <= MAX_ENTRIES
        &&& forall|i: int| 0 <= i < self.layout@.len() ==> self.pair_ok(#[trigger] self.layout@[i])
    }

    pub open spec fn entries_wf(&self) -> bool {
        &&& all_wf(self.sections@)
        &&& all_wf(self.config_fields@)
        &&& all_wf(self.info_fields@)
        &&& all_wf(self.actions@)
    }

    pub open spec fn counts_fit(&self) -> bool {
        &&& self.sections@.len() <= MAX_ENTRIES
        &&& self.config_fields@.len() <= MAX_ENTRIES
        &&& self.info_fields@.len() <= MAX_ENTRIES
        &&& self.actions@.len() <= MAX_ENTRIES
    }

    pub open spec fn layout_known(&self) -> bool {
        forall|i: int| 0 <= i < self.layout@.len() ==> self.pair_ok(#[trigger] self.layout@[i])
    }

    /// Compiles a schema from its descriptors and layout, each in declaration
    /// order. Fails on an invalid descriptor first, then on a category with more
    /// entries than one byte can name, then on a layout pair naming an
    /// undeclared entry.
    pub fn new(
        sections: Vec<EntryDesc>,
        config_fields: Vec<EntryDesc>,
        info_fields: Vec<EntryDesc>,
        actions: Vec<EntryDesc>,
        layout: Vec<(Section, Field)>,
    ) -> (r: Result<Proto, SchemaError>)
        ensures
            ({
                let p = Proto { sections, config_fields, info_fields, actions, layout };
                &&& !p.entries_wf() ==> r == Err::<Proto, SchemaError>(SchemaError::InvalidEntry)
                &&& p.entries_wf() && !p.counts_fit() ==> r == Err::<Proto, SchemaError>(
                    SchemaError::TooManyEntries,
                )
                &&& p.entries_wf() && p.counts_fit() && !p.layout_known() ==> r == Err::<
                    Proto,
                    SchemaError,
                >(SchemaError::UnknownEntry)
                &&& p.wf() ==> r == Ok::<Proto, SchemaError>(p)
            }),
    {
        let p = Proto { sections, config_fields, info_fields, actions, layout };
        if !(all_valid(&p.sections) && all_valid(&p.config_fields) && all_valid(&p.info_fields)
            && all_valid(&p.actions)) {
            return Err(SchemaError::InvalidEntry);
        }
        if p.sections.len() > MAX_ENTRIES || p.config_fields.len() > MAX_ENTRIES
            || p.info_fields.len() > MAX_ENTRIES || p.actions.len() > MAX_ENTRIES {
            return Err(SchemaError::TooManyEntries);
        }
        let mut i: usize = 0;
        while i < p.layout.len()
            invariant
                i <= p.layout@.len(),
                p == (Proto { sections, config_fields, info_fields, actions, layout }),
                p.entries_wf(),
                p.counts_fit(),
                forall|j: int| 0 <= j < i ==> p.pair_ok(#[trigger] p.layout@[j]),
            decreases p.layout@.len() - i,
        {
            let (sec, field) = p.layout[i];
            let known = (sec.0 as usize) < p.sections.len() && match field {
                Field::Conf(c) => (c.0 as usize) < p.config_fields.len(),
                Field::Info(f) => (f.0 as usize) < p.info_fields.len(),
            };
            if !known {
                assert(!p.pair_ok(p.layout@[i as int]));
                return Err(SchemaError::UnknownEntry);
            }
            i = i + 1;
        }
        Ok(p)
    }

    /// A schema with no entries at all.
    pub fn empty() -> (r: Proto)
        ensures
            r.wf(),
            r.sections@.len() == 0,
            r.config_fields@.len() == 0,
            r.info_fields@.len() == 0,
            r.actions@.len() == 0,
            r.layout@.len() == 0,
    {
        Proto {
            sections: Vec::new(),
            config_fields: Vec::new(),
            info_fields: Vec::new(),
            actions: Vec::new(),
            layout: Vec::new(),
        }
    }

    /// Declares a section; it gets the next position of its category.
    pub fn add_section(&mut self, entry: EntryDesc) -> (r: Result<Section, SchemaError>)
        requires
            old(self).wf(),
        ensures
            final(self).wf(),
            r is Ok <==> entry.wf() && old(self).sections@.len() < MAX_ENTRIES,
            !entry.wf() ==> r == Err::<Section, SchemaError>(SchemaError::InvalidEntry),
            entry.wf() && old(self).sections@.len() >= MAX_ENTRIES ==> r == Err::<Section, SchemaError>(
                SchemaError::TooManyEntries,
            ),
            r is Err ==> *final(self) == *old(self),
            r is Ok ==> r == Ok::<Section, SchemaError>(
                Section(old(self).sections@.len() as u8),
            ),
            r is Ok ==> final(self).sections@ == old(self).sections@.push(entry),
            r is Ok ==> final(self).kept_except(old(self), Some(EntryType::Section)),
    {
        if !entry.check() {
            return Err(SchemaError::InvalidEntry);
        }
        let n = self.sections.len();
        if n >= MAX_ENTRIES {
            return Err(SchemaError::TooManyEntries);
        }
        self.sections.push(entry);
        assert(forall|i: int| 0 <= i < n ==> self.sections@[i] == old(self).sections@[i]);
        Ok(Section(n as u8))
    }

    /// Declares a config field; it gets the next position of its category.
    pub fn add_config(&mut self, entry: EntryDesc) -> (r: Result<ConfigField, SchemaError>)
        requires
            old(self).wf(),
        ensures
            final(self).wf(),
            r is Ok <==> entry.wf() && old(self).config_fields@.len() < MAX_ENTRIES,
            !entry.wf() ==> r == Err::<ConfigField, SchemaError>(SchemaError::InvalidEntry),
            entry.wf() && old(self).config_fields@.len() >= MAX_ENTRIES ==> r == Err::<ConfigField, SchemaError>(
                SchemaError::TooManyEntries,
            ),
            r is Err ==> *final(self) == *old(self),
            r is Ok ==> r == Ok::<ConfigField, SchemaError>(
                ConfigField(old(self).config_fields@.len() as u8),
            ),
            r is Ok ==> final(self).config_fields@ == old(self).config_fields@.push(entry),
            r is Ok ==> final(self).kept_except(old(self), Some(EntryType::Config)),
    {
        if !entry.check() {
            return Err(SchemaError::InvalidEntry);
        }
        let n = self.config_fields.len();
        if n >= MAX_ENTRIES {
            return Err(SchemaError::TooManyEntries);
        }
        self.config_fields.push(entry);
        assert(forall|i: int| 0 <= i < n ==> self.config_fields@[i] == old(self).config_fields@[i]);
        Ok(ConfigField(n as u8))
    }

    /// Declares an info field; it gets the next position of its category.
    pub fn add_info(&mut self, entry: EntryDesc) -> (r: Result<InfoField, SchemaError>)
        requires
            old(self).wf(),
        ensures
            final(self).wf(),
            r is Ok <==> entry.wf() && old(self).info_fields@.len() < MAX_ENTRIES,
            !entry.wf() ==> r == Err::<InfoField, SchemaError>(SchemaError::InvalidEntry),
            entry.wf() && old(self).info_fields@.len() >= MAX_ENTRIES ==> r == Err::<InfoField, SchemaError>(
                SchemaError::TooManyEntries,
            ),
            r is Err ==> *final(self) == *old(self),
            r is Ok ==> r == Ok::<InfoField, SchemaError>(
                InfoField(old(self).info_fields@.len() as u8),
            ),
            r is Ok ==> final(self).info_fields@ == old(self).info_fields@.push(entry),
            r is Ok ==> final(self).kept_except(old(self), Some(EntryType::Info)),
    {
        if !entry.check() {
            return Err(SchemaError::InvalidEntry);
        }
        let n = self.info_fields.len();
        if n >= MAX_ENTRIES {
            return Err(SchemaError::TooManyEntries);
        }
        self.info_fields.push(entry);
        assert(forall|i: int| 0 <= i < n ==> self.info_fields@[i] == old(self).info_fields@[i]);
        Ok(InfoField(n as u8))
    }

    /// Declares an action; it gets the next position of its category.
    pub fn add_action(&mut self, entry: EntryDesc) -> (r: Result<Action, SchemaError>)
        requires
            old(self).wf(),
        ensures
            final(self).wf(),
            r is Ok <==> entry.wf() && old(self).actions@.len() < MAX_ENTRIES,
            !entry.wf() ==> r == Err::<Action, SchemaError>(SchemaError::InvalidEntry),
            entry.wf() && old(self).actions@.len() >= MAX_ENTRIES ==> r == Err::<Action, SchemaError>(
                SchemaError::TooManyEntries,
            ),
            r is Err ==> *final(self) == *old(self),
            r is Ok ==> r == Ok::<Action, SchemaError>(
                Action(old(self).actions@.len() as u8),
            ),
            r is Ok ==> final(self).actions@ == old(self).actions@.push(entry),
            r is Ok ==> final(self).kept_except(old(self), Some(EntryType::Action)),
    {
        if !entry.check() {
            return Err(SchemaError::InvalidEntry);
        }
        let n = self.actions.len();
        if n >= MAX_ENTRIES {
            return Err(SchemaError::TooManyEntries);
        }
        self.actions.push(entry);
        assert(forall|i: int| 0 <= i < n ==> self.actions@[i] == old(self).actions@[i]);
        Ok(Action(n as u8))
    }

    /// Appends a pair to the layout; fails when it names an undeclared entry.
    pub fn add_layout(&mut self, section: Section, field: Field) -> (r: Result<(), SchemaError>)
        requires
            old(self).wf(),
        ensures
            final(self).wf(),
            r is Ok <==> old(self).pair_ok((section, field)),
            r is Err ==> r == Err::<(), SchemaError>(SchemaError::UnknownEntry),
            r is Err ==> *final(self) == *old(self),
            r is Ok ==> final(self).layout@ == old(self).layout@.push((section, field)),
            r is Ok ==> final(self).kept_except(old(self), None),
    {
        let known = (section.0 as usize) < self.sections.len() && match field {
            Field::Conf(c) => (c.0 as usize) < self.config_fields.len(),
            Field::Info(i) => (i.0 as usize) < self.info_fields.len(),
        };
        if !known {
            return Err(SchemaError::UnknownEntry);
        }
        let ghost n = self.layout@.len();
        self.layout.push((section, field));
        assert(forall|i: int| 0 <= i < n ==> self.layout@[i] == old(self).layout@[i]);
        Ok(())
    }

    /// The descriptor of a declared section.
    pub fn section(&self, s: Section) -> (r: &EntryDesc)
        requires
            (s.0 as nat) < self.sections@.len(),
        ensures
            *r == self.sections@[s.0 as int],
    {
        &self.sections[s.0 as usize]
    }

    /// The descriptor of a declared config field.
    pub fn config_field(&self, f: ConfigField) -> (r: &EntryDesc)
        requires
            (f.0 as nat) < self.config_fields@.len(),
        ensures
            *r == self.config_fields@[f.0 as int],
    {
        &self.config_fields[f.0 as usize]
    }

    /// The descriptor of a declared info field.
    pub fn info_field(&self, f: InfoField) -> (r: &EntryDesc)
        requires
            (f.0 as nat) < self.info_fields@.len(),
        ensures
            *r == self.info_fields@[f.0 as int],
    {
        &self.info_fields[f.0 as usize]
    }

    /// The descriptor of a declared action.
    pub fn action(&self, a: Action) -> (r: &EntryDesc)
        requires
            (a.0 as nat) < self.actions@.len(),
        ensures
            *r == self.actions@[a.0 as int],
    {
        &self.actions[a.0 as usize]
    }
}

} // verus!
