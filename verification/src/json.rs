//! JSON documents as trees of plain values.
//!
//! The wire protocol exchanges JSON texts.  Parsing a text into a tree is
//! the work of an outside parser, called behind a trusted boundary; every
//! decision the protocol takes on a parsed document is made on the
//! [`JVal`] tree by verified code.

use vstd::prelude::*;
use vstd::string::StrSliceExecFns;

verus! {

broadcast use vstd::std_specs::vec::group_vec_axioms;

/// The mathematical content of a JSON document.
pub enum JModel {
    Null,
    Bool(bool),
    /// A number that is an unsigned 64-bit integer.
    UInt(u64),
    /// A number outside the unsigned 64-bit range: negative or fractional.
    /// The protocol accepts no such number, so its value is not kept.
    NonUInt,
    Str(Seq<char>),
    Arr(Seq<JModel>),
    /// Object fields in the order the parser hands them out.  Field lookup
    /// takes the first binding of a name.
    Obj(Seq<(Seq<char>, JModel)>),
}

/// A parsed JSON document.
pub enum JVal {
    Null,
    Bool(bool),
    UInt(u64),
    NonUInt,
    Str(String),
    Arr(Vec<JVal>),
    Obj(Vec<(String, JVal)>),
}

impl JVal {
    /// The document as plain mathematical values.
    pub open spec fn model(self) -> JModel
        decreases self,
    {
        match self {
            JVal::Null => JModel::Null,
            JVal::Bool(b) => JModel::Bool(b),
            JVal::UInt(n) => JModel::UInt(n),
            JVal::NonUInt => JModel::NonUInt,
            JVal::Str(s) => JModel::Str(s@),
            JVal::Arr(cs) => JModel::Arr(models_of(cs@)),
            JVal::Obj(fs) => JModel::Obj(field_models_of(fs@)),
        }
    }
}

/// The models of a sequence of documents, in order.
pub open spec fn models_of(s: Seq<JVal>) -> Seq<JModel>
    decreases s,
{
    if s.len() == 0 {
        Seq::empty()
    } else {
        models_of(s.drop_last()).push(s.last().model())
    }
}

/// The models of a sequence of object fields, in order.
pub open spec fn field_models_of(s: Seq<(String, JVal)>) -> Seq<(Seq<char>, JModel)>
    decreases s,
{
    if s.len() == 0 {
        Seq::empty()
    } else {
        field_models_of(s.drop_last()).push((s.last().0@, s.last().1.model()))
    }
}

/// Each entry of `models_of` is the model of the entry it came from.
pub proof fn lemma_models_of_index(s: Seq<JVal>, i: int)
    requires
        0 <= i < s.len(),
    ensures
        models_of(s).len() == s.len(),
        models_of(s)[i] == s[i].model(),
    decreases s,
{
    lemma_models_of_len(s);
    if i < s.len() - 1 {
        lemma_models_of_index(s.drop_last(), i);
    }
}

/// `models_of` keeps the length.
pub proof fn lemma_models_of_len(s: Seq<JVal>)
    ensures
        models_of(s).len() == s.len(),
    decreases s,
{
    if s.len() > 0 {
        lemma_models_of_len(s.drop_last());
    }
}

/// Each entry of `field_models_of` is the model of the field it came from.
pub proof fn lemma_field_models_of_index(s: Seq<(String, JVal)>, i: int)
    requires
        0 <= i < s.len(),
    ensures
        field_models_of(s).len() == s.len(),
        field_models_of(s)[i] == (s[i].0@, s[i].1.model()),
    decreases s,
{
    lemma_field_models_of_len(s);
    if i < s.len() - 1 {
        lemma_field_models_of_index(s.drop_last(), i);
    }
}

/// `field_models_of` keeps the length.
pub proof fn lemma_field_models_of_len(s: Seq<(String, JVal)>)
    ensures
        field_models_of(s).len() == s.len(),
    decreases s,
{
    if s.len() > 0 {
        lemma_field_models_of_len(s.drop_last());
    }
}

/// The first binding of a name among object fields, if any.
pub open spec fn spec_field(fs: Seq<(Seq<char>, JModel)>, name: Seq<char>) -> Option<JModel>
    decreases fs,
{
    if fs.len() == 0 {
        None
    } else if fs[0].0 == name {
        Some(fs[0].1)
    } else {
        spec_field(fs.drop_first(), name)
    }
}

/// The named field of a document: the first binding of the name when the
/// document is an object, nothing otherwise or when the name is unbound.
pub open spec fn spec_get(j: JModel, name: Seq<char>) -> Option<JModel> {
    match j {
        JModel::Obj(fs) => spec_field(fs, name),
        _ => None,
    }
}

impl JVal {
    /// Looks a field up by name: the first binding when this document is an
    /// object with such a field, nothing otherwise.
    pub fn get<'a>(&'a self, name: &str) -> (r: Option<&'a JVal>)
        ensures
            match r {
                Some(v) => spec_get(self.model(), name@) == Some(v.model()),
                None => spec_get(self.model(), name@) is None,
            },
    {
        match self {
            JVal::Obj(fs) => {
                let ghost ms = field_models_of(fs@);
                proof {
                    lemma_field_models_of_len(fs@);
                }
                let n = fs.len();
                proof {
                    assert(ms.skip(0) =~= ms);
                    assert forall|k: int| 0 <= k < fs@.len() implies #[trigger] ms[k] == (
                    fs@[k].0@,
                    fs@[k].1.model(),
                    ) by {
                        lemma_field_models_of_index(fs@, k);
                    }
                }
                for i in 0..n
                    invariant
                        *self is Obj,
                        self->Obj_0 == *fs,
                        n == fs@.len(),
                        ms == field_models_of(fs@),
                        ms.len() == n,
                        spec_field(ms, name@) == spec_field(ms.skip(i as int), name@),
                        forall|k: int|
                            0 <= k < n ==> #[trigger] ms[k] == (fs@[k].0@, fs@[k].1.model()),
                {
                    proof {
                        lemma_field_models_of_index(fs@, i as int);
                    }
                    if str_eq(fs[i].0.as_str(), name) {
                        proof {
                            assert(fs@[i as int].0@ == name@);
                            assert(ms.skip(i as int).len() > 0);
                            assert(ms.skip(i as int)[0] == ms[i as int]);
                            assert(spec_field(ms.skip(i as int), name@) == Some(ms[i as int].1));
                            assert(*self is Obj);
                            assert(self->Obj_0 == *fs);
                            assert(self.model() == JModel::Obj(ms));
                        }
                        return Some(&fs[i].1);
                    }
                    proof {
                        assert(ms.skip(i as int).drop_first() =~= ms.skip(i + 1));
                    }
                }
                proof {
                    assert(ms.skip(n as int) =~= Seq::<(Seq<char>, JModel)>::empty());
                }
                None
            },
            _ => None,
        }
    }
}

/// Declares the outside parser's opaque document type, so that the
/// conversion below can take it apart.
#[verifier::external_type_specification]
#[verifier::external_body]
pub struct ExValue(serde_json::Value);

/// What parsing a text as one JSON document yields: the model of its tree,
/// or nothing when the parser rejects the text.  The result depends on the
/// text alone.
pub uninterp spec fn json_of(s: Seq<char>) -> Option<JModel>;

/// Relies on serde_json::from_str::<serde_json::Value>: parses the text as
/// one JSON document, accepting exactly the texts the parser reads as valid
/// JSON; the error text describes the fault.
#[verifier::external_body]
pub(crate) fn parse_json(s: &str) -> (r: Result<JVal, String>)
    ensures
        match r {
            Ok(v) => json_of(s@) == Some(v.model()),
            Err(_) => json_of(s@) is None,
        },
{
    match serde_json::from_str::<serde_json::Value>(s) {
        Ok(v) => Ok(tree_of_value(v)),
        Err(e) => Err(format!("{e:?}")),
    }
}

/// The conversion half of [`parse_json`]: rebuilds the parsed document as
/// the library's tree, one arm per serde_json::Value variant, recursing into
/// arrays and objects.  A number is kept when serde_json::Number::as_u64
/// accepts it and marked [`JVal::NonUInt`] otherwise; object fields come out
/// in the parser's order (sorted by name, later duplicates overriding).
#[verifier::external_body]
fn tree_of_value(v: serde_json::Value) -> JVal {
    match v {
        serde_json::Value::Null => JVal::Null,
        serde_json::Value::Bool(b) => JVal::Bool(b),
        serde_json::Value::Number(n) => n.as_u64().map_or(JVal::NonUInt, JVal::UInt),
        serde_json::Value::String(s) => JVal::Str(s),
        serde_json::Value::Array(a) => JVal::Arr(a.into_iter().map(tree_of_value).collect()),
        serde_json::Value::Object(m) => JVal::Obj(
            m.into_iter().map(|(k, w)| (k, tree_of_value(w))).collect(),
        ),
    }
}

/// Character-wise string comparison, so that field names can be matched
/// against literals.
pub fn str_eq(a: &str, b: &str) -> (r: bool)
    ensures
        r == (a@ == b@),
{
    let n = a.unicode_len();
    if n != b.unicode_len() {
        assert(a@ != b@);
        return false;
    }
    for i in 0..n
        invariant
            n == a@.len(),
            n == b@.len(),
            forall|k: int| 0 <= k < i ==> a@[k] == b@[k],
    {
        if a.get_char(i) != b.get_char(i) {
            return false;
        }
    }
    proof {
        assert(a@ =~= b@);
    }
    true
}

} // verus!
