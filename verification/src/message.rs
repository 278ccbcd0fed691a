//! The envelope that crosses the channel in both directions: a short ordered
//! list of named fields, each a string or a byte payload.

use vstd::prelude::*;

verus! {

/// What a field carries.
#[derive(Debug)]
pub enum FieldValue {
    /// A short identifying string.
    Text(String),
    /// An opaque payload.
    Binary(Vec<u8>),
}

/// One named field of a message.
#[derive(Debug)]
pub struct Field {
    pub name: String,
    pub value: FieldValue,
}

/// A request or a reply.
#[derive(Debug)]
pub struct BrokerMessage {
    pub fields: Vec<Field>,
}

/// What a field carries, as a mathematical value.
pub ghost enum ValueView {
    Text(Seq<char>),
    Binary(Seq<u8>),
}

/// One named field, as a mathematical value.
pub ghost struct FieldView {
    pub name: Seq<char>,
    pub value: ValueView,
}

impl View for FieldValue {
    type V = ValueView;

    open spec fn view(&self) -> ValueView {
        match self {
            FieldValue::Text(text) => ValueView::Text(text@),
            FieldValue::Binary(bytes) => ValueView::Binary(bytes@),
        }
    }
}

impl View for Field {
    type V = FieldView;

    open spec fn view(&self) -> FieldView {
        FieldView { name: self.name@, value: self.value@ }
    }
}

impl View for BrokerMessage {
    type V = Seq<FieldView>;

    open spec fn view(&self) -> Seq<FieldView> {
        self.fields@.map_values(|field: Field| field@)
    }
}

/// The payload of the first binary field with the given name, if there is one.
/// A string field of that name does not count.
pub open spec fn lookup_binary(fields: Seq<FieldView>, name: Seq<char>) -> Option<Seq<u8>>
    decreases fields.len(),
{
    if fields.len() == 0 {
        None
    } else if fields[0].name == name && fields[0].value is Binary {
        Some(fields[0].value->Binary_0)
    } else {
        lookup_binary(fields.subrange(1, fields.len() as int), name)
    }
}

/// The value of the first string field with the given name, if there is one.
/// A binary field of that name does not count.
pub open spec fn lookup_string(fields: Seq<FieldView>, name: Seq<char>) -> Option<Seq<char>>
    decreases fields.len(),
{
    if fields.len() == 0 {
        None
    } else if fields[0].name == name && fields[0].value is Text {
        Some(fields[0].value->Text_0)
    } else {
        lookup_string(fields.subrange(1, fields.len() as int), name)
    }
}

impl BrokerMessage {
    /// A message without fields.
    pub fn new() -> (message: BrokerMessage)
        ensures
            message@ == Seq::<FieldView>::empty(),
    {
        let message = BrokerMessage { fields: Vec::new() };
        assert(message@ =~= Seq::<FieldView>::empty());
        message
    }

    /// Number of fields.
    pub fn len(&self) -> (n: usize)
        ensures
            n == self@.len(),
    {
        self.fields.len()
    }

    /// Appends a string field.
    pub fn insert_string(&mut self, name: &str, value: &str)
        ensures
            final(self)@ == old(self)@.push(
                FieldView { name: name@, value: ValueView::Text(value@) },
            ),
    {
        let field = Field { name: name.to_owned(), value: FieldValue::Text(value.to_owned()) };
        self.fields.push(field);
        assert(self@ =~= old(self)@.push(field@));
    }

    /// Appends a binary field.
    pub fn insert_binary(&mut self, name: &str, value: Vec<u8>)
        ensures
            final(self)@ == old(self)@.push(
                FieldView { name: name@, value: ValueView::Binary(value@) },
            ),
    {
        let field = Field { name: name.to_owned(), value: FieldValue::Binary(value) };
        self.fields.push(field);
        assert(self@ =~= old(self)@.push(field@));
    }

    /// The payload of the first binary field with the given name.
    pub fn get_binary(&self, name: &str) -> (found: Option<&Vec<u8>>)
        ensures
            match found {
                Some(bytes) => lookup_binary(self@, name@) == Some(bytes@),
                None => lookup_binary(self@, name@) is None,
            },
    {
        let key = name.to_owned();
        let mut i: usize = 0;
        assert(self@.subrange(0, self@.len() as int) =~= self@);
        while i < self.fields.len()
            invariant
                i <= self.fields.len(),
                key@ == name@,
                lookup_binary(self@, name@) == lookup_binary(
                    self@.subrange(i as int, self@.len() as int),
                    name@,
                ),
            decreases self.fields.len() - i,
        {
            let ghost rest = self@.subrange(i as int, self@.len() as int);
            assert(rest[0] == self.fields[i as int]@);
            assert(rest.subrange(1, rest.len() as int) =~= self@.subrange(
                i + 1,
                self@.len() as int,
            ));
            if self.fields[i].name == key {
                match &self.fields[i].value {
                    FieldValue::Binary(bytes) => {
                        return Some(bytes);
                    },
                    FieldValue::Text(_) => {},
                }
            }
            i += 1;
        }
        None
    }

    /// The value of the first string field with the given name.
    pub fn get_string(&self, name: &str) -> (found: Option<&String>)
        ensures
            match found {
                Some(text) => lookup_string(self@, name@) == Some(text@),
                None => lookup_string(self@, name@) is None,
            },
    {
        let key = name.to_owned();
        let mut i: usize = 0;
        assert(self@.subrange(0, self@.len() as int) =~= self@);
        while i < self.fields.len()
            invariant
                i <= self.fields.len(),
                key@ == name@,
                lookup_string(self@, name@) == lookup_string(
                    self@.subrange(i as int, self@.len() as int),
                    name@,
                ),
            decreases self.fields.len() - i,
        {
            let ghost rest = self@.subrange(i as int, self@.len() as int);
            assert(rest[0] == self.fields[i as int]@);
            assert(rest.subrange(1, rest.len() as int) =~= self@.subrange(
                i + 1,
                self@.len() as int,
            ));
            if self.fields[i].name == key {
                match &self.fields[i].value {
                    FieldValue::Text(text) => {
                        return Some(text);
                    },
                    FieldValue::Binary(_) => {},
                }
            }
            i += 1;
        }
        None
    }
}

} // verus!
