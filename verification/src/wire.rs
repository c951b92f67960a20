//! The wire shape of request and reply bodies.
//!
//! A body on the wire is a JSON object. This crate sees it as an ordered list
//! of fields, each a key with a value, and leaves the JSON text itself to the
//! embedding program. The keys are the API's exact wire field names.

use vstd::prelude::*;

verus! {

/// The value of one wire field.
#[derive(Debug, Clone, PartialEq, Eq)]
pub enum WireValue {
    /// A JSON string.
    Text(String),
    /// A non-negative whole JSON number.
    Number(u64),
    /// Any other JSON value; the client core never looks inside one.
    Other,
}

/// The contents of a [`WireValue`].
pub enum WireValueView {
    Text(Seq<char>),
    Number(u64),
    Other,
}

impl View for WireValue {
    type V = WireValueView;

    open spec fn view(&self) -> WireValueView {
        match self {
            WireValue::Text(text) => WireValueView::Text(text@),
            WireValue::Number(number) => WireValueView::Number(*number),
            WireValue::Other => WireValueView::Other,
        }
    }
}

/// One field of a wire object: a key and its value.
#[derive(Debug, Clone, PartialEq, Eq)]
pub struct WireField {
    pub key: String,
    pub value: WireValue,
}

/// The contents of a [`WireField`].
pub struct WireFieldView {
    pub key: Seq<char>,
    pub value: WireValueView,
}

impl View for WireField {
    type V = WireFieldView;

    open spec fn view(&self) -> WireFieldView {
        WireFieldView { key: self.key@, value: self.value@ }
    }
}

/// A text field, as it stands in the view of a wire object.
pub open spec fn text_field(key: Seq<char>, value: Seq<char>) -> WireFieldView {
    WireFieldView { key, value: WireValueView::Text(value) }
}

/// A number field, as it stands in the view of a wire object.
pub open spec fn number_field(key: Seq<char>, value: u64) -> WireFieldView {
    WireFieldView { key, value: WireValueView::Number(value) }
}

/// The value under `key`: that of the first field with this key, if there is
/// one.
pub open spec fn spec_get(fields: Seq<WireFieldView>, key: Seq<char>) -> Option<WireValueView>
    decreases fields.len(),
{
    if fields.len() == 0 {
        None
    } else if fields.first().key == key {
        Some(fields.first().value)
    } else {
        spec_get(fields.drop_first(), key)
    }
}

/// The text under `key`: present only if the first field with this key holds
/// a string.
pub open spec fn spec_text(fields: Seq<WireFieldView>, key: Seq<char>) -> Option<Seq<char>> {
    match spec_get(fields, key) {
        Some(WireValueView::Text(text)) => Some(text),
        _ => None,
    }
}

/// Fields whose keys differ from `key` do not matter to a lookup: if none of
/// the first `n` fields has the key, the lookup may start after them.
pub proof fn lemma_get_skips(fields: Seq<WireFieldView>, key: Seq<char>, n: int)
    requires
        0 <= n <= fields.len(),
        forall|j: int| 0 <= j < n ==> fields[j].key != key,
    ensures
        spec_get(fields, key) == spec_get(fields.skip(n), key),
    decreases n,
{
    if n == 0 {
        assert(fields.skip(0) =~= fields);
    } else {
        let rest = fields.drop_first();
        assert(fields[0].key != key);
        assert forall|j: int| 0 <= j < n - 1 implies rest[j].key != key by {
            assert(rest[j] == fields[j + 1]);
        }
        lemma_get_skips(rest, key, n - 1);
        assert(rest.skip(n - 1) =~= fields.skip(n));
    }
}

/// A lookup finds nothing exactly when no field has the key.
pub proof fn lemma_get_none_iff_absent(fields: Seq<WireFieldView>, key: Seq<char>)
    ensures
        spec_get(fields, key) is None <==> forall|j: int|
            0 <= j < fields.len() ==> fields[j].key != key,
    decreases fields.len(),
{
    if fields.len() > 0 {
        let rest = fields.drop_first();
        lemma_get_none_iff_absent(rest, key);
        if fields[0].key != key {
            if spec_get(rest, key) is None {
                assert forall|j: int| 0 <= j < fields.len() implies fields[j].key != key by {
                    if j > 0 {
                        assert(rest[j - 1] == fields[j]);
                    }
                }
            } else {
                let j = choose|j: int| 0 <= j < rest.len() && rest[j].key == key;
                assert(fields[j + 1] == rest[j]);
            }
        }
    }
}

/// A body on the wire: an ordered list of fields.
#[derive(Debug, Clone, PartialEq, Eq)]
pub struct WireObject {
    pub fields: Vec<WireField>,
}

impl View for WireObject {
    type V = Seq<WireFieldView>;

    open spec fn view(&self) -> Seq<WireFieldView> {
        Seq::new(self.fields@.len(), |i: int| self.fields@[i]@)
    }
}

/// The contents of an optional body.
pub open spec fn body_view(body: Option<WireObject>) -> Option<Seq<WireFieldView>> {
    match body {
        Some(object) => Some(object@),
        None => None,
    }
}

impl WireObject {
    /// An object without fields.
    pub fn new() -> (object: WireObject)
        ensures
            object@ == Seq::<WireFieldView>::empty(),
    {
        let object = WireObject { fields: Vec::new() };
        assert(object@ =~= Seq::<WireFieldView>::empty());
        object
    }

    /// Appends a text field.
    pub fn push_text(&mut self, key: &str, value: &str)
        ensures
            final(self)@ == old(self)@.push(text_field(key@, value@)),
    {
        let field = WireField {
            key: String::from_str(key),
            value: WireValue::Text(String::from_str(value)),
        };
        self.fields.push(field);
        assert(self@ =~= old(self)@.push(text_field(key@, value@)));
    }

    /// Appends a number field.
    pub fn push_number(&mut self, key: &str, value: u64)
        ensures
            final(self)@ == old(self)@.push(number_field(key@, value)),
    {
        let field = WireField { key: String::from_str(key), value: WireValue::Number(value) };
        self.fields.push(field);
        assert(self@ =~= old(self)@.push(number_field(key@, value)));
    }

    /// The value under `key`: that of the first field with this key.
    pub fn get(&self, key: &str) -> (found: Option<&WireValue>)
        ensures
            match found {
                Some(value) => spec_get(self@, key@) == Some(value@),
                None => spec_get(self@, key@) is None,
            },
    {
        let wanted = String::from_str(key);
        let mut i: usize = 0;
        while i < self.fields.len()
            invariant
                i <= self.fields@.len(),
                wanted@ == key@,
                forall|j: int| 0 <= j < i ==> self@[j].key != key@,
            decreases self.fields@.len() - i,
        {
            if self.fields[i].key == wanted {
                proof {
                    lemma_get_skips(self@, key@, i as int);
                    assert(self@.skip(i as int).first() == self@[i as int]);
                }
                return Some(&self.fields[i].value);
            }
            i += 1;
        }
        proof {
            lemma_get_none_iff_absent(self@, key@);
        }
        None
    }

    /// The text under `key`: present only if the first field with this key
    /// holds a string.
    pub fn text(&self, key: &str) -> (found: Option<String>)
        ensures
            match found {
                Some(text) => spec_text(self@, key@) == Some(text@),
                None => spec_text(self@, key@) is None,
            },
    {
        match self.get(key) {
            Some(WireValue::Text(text)) => Some(text.clone()),
            _ => None,
        }
    }
}

} // verus!
