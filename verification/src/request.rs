//! Decoding a broadcast request from a JSON document, and encoding one.
//!
//! The wire request is one JSON object: `sender` (string), `recipients`
//! (array of strings), `message` (string), and an optional `responses`
//! object holding `timeout` (unsigned integer) and `keyboard` (grid of
//! strings).  A request decoded from the wire flags every recipient as
//! awaiting a reply; whether a reply is in fact solicited is governed by the
//! prompt grid being non-empty.

use vstd::prelude::*;
use vstd::string::StrSliceExecFns;
use vstd::string::StringExecFns;
use crate::json::{JModel, JVal, json_of, spec_get, spec_field, parse_json, models_of,
    lemma_models_of_index, lemma_models_of_len};
use crate::types::{BauMessage, MessageModel, RequestedResponses, SerializeError,
    SerializeErrorModel};
use crate::text::{spec_render, render_str, render_elems, render_fields, render_field, spec_dec,
    lemma_escape_plain, lemma_render_elems_push, append_json_str, u64_string};

verus! {

broadcast use vstd::std_specs::vec::group_vec_axioms;

/// Why a document was rejected as a request: a required field was absent, or
/// a present field held a value of the wrong shape.
pub enum BuildErr {
    Missing(Seq<char>),
    Bad(Seq<char>),
}

/// The description a rejected field is reported with.
pub open spec fn bad_field_text(f: Seq<char>) -> Seq<char> {
    "invalid field: "@ + f
}

/// The error a rejection is reported as: an absent field by name, a
/// malformed field by description.
pub open spec fn build_err_model(e: BuildErr) -> SerializeErrorModel {
    match e {
        BuildErr::Missing(f) => SerializeErrorModel::Field(f),
        BuildErr::Bad(f) => SerializeErrorModel::Json(bad_field_text(f)),
    }
}

/// The texts of a sequence of documents, when every one is a string.
pub open spec fn spec_strings(s: Seq<JModel>) -> Option<Seq<Seq<char>>> {
    if forall|i: int| 0 <= i < s.len() ==> (#[trigger] s[i]) is Str {
        Some(Seq::new(s.len(), |i: int| s[i]->Str_0))
    } else {
        None
    }
}

/// The label grid of a sequence of documents, when every one is an array of
/// strings.
pub open spec fn spec_grid(s: Seq<JModel>) -> Option<Seq<Seq<Seq<char>>>> {
    if forall|i: int|
        0 <= i < s.len() ==> (#[trigger] s[i]) is Arr && spec_strings(s[i]->Arr_0) is Some {
        Some(Seq::new(s.len(), |i: int| spec_strings(s[i]->Arr_0)->Some_0))
    } else {
        None
    }
}

/// The prompt a `responses` document describes: its deadline and grid, when
/// the document is an object with an unsigned integer `timeout` and a grid
/// `keyboard`.
pub open spec fn spec_prompt(r: JModel) -> Option<(u64, Seq<Seq<Seq<char>>>)> {
    let t = spec_get(r, "timeout"@);
    let k = spec_get(r, "keyboard"@);
    if t matches Some(JModel::UInt(deadline)) && k matches Some(JModel::Arr(rows))
        && spec_grid(rows) is Some {
        Some((t->Some_0->UInt_0, spec_grid(k->Some_0->Arr_0)->Some_0))
    } else {
        None
    }
}

/// What building a request from a parsed document yields: the message, or
/// the first rejection in field order - `sender`, `recipients`, `message`,
/// `responses`.  An absent `responses` field means an empty prompt.
pub open spec fn spec_build(j: JModel) -> Result<MessageModel, BuildErr> {
    let sender = spec_get(j, "sender"@);
    let recipients = spec_get(j, "recipients"@);
    let message = spec_get(j, "message"@);
    let responses = spec_get(j, "responses"@);
    if sender is None {
        Err(BuildErr::Missing("sender"@))
    } else if !(sender->Some_0 is Str) {
        Err(BuildErr::Bad("sender"@))
    } else if recipients is None {
        Err(BuildErr::Missing("recipients"@))
    } else if !(recipients->Some_0 is Arr && spec_strings(recipients->Some_0->Arr_0) is Some) {
        Err(BuildErr::Bad("recipients"@))
    } else if message is None {
        Err(BuildErr::Missing("message"@))
    } else if !(message->Some_0 is Str) {
        Err(BuildErr::Bad("message"@))
    } else {
        let names = spec_strings(recipients->Some_0->Arr_0)->Some_0;
        let base = MessageModel {
            sender: sender->Some_0->Str_0,
            recipients: Seq::new(names.len(), |i: int| (names[i], true)),
            message: message->Some_0->Str_0,
            timeout: 0,
            keyboard: Seq::empty(),
        };
        match responses {
            None => Ok(base),
            Some(r) => match spec_prompt(r) {
                Some(prompt) => Ok(
                    MessageModel { timeout: prompt.0, keyboard: prompt.1, ..base },
                ),
                None => Err(BuildErr::Bad("responses"@)),
            },
        }
    }
}

/// The rejection for a malformed field.
fn bad_field(f: &str) -> (e: SerializeError)
    ensures
        e.model() == SerializeErrorModel::Json(bad_field_text(f@)),
{
    SerializeError::InvalidJson(String::from_str("invalid field: ").concat(f))
}

impl BauMessage {
    /// Builds a request from a parsed document, rejecting exactly the
    /// documents [`spec_build`] rejects, in the same field order.
    pub fn from_tree(tree: &JVal) -> (r: Result<BauMessage, SerializeError>)
        ensures
            match spec_build(tree.model()) {
                Ok(mm) => r matches Ok(m) && m.model() == mm,
                Err(e) => r matches Err(se) && se.model() == build_err_model(e),
            },
    {
        let sender: String = match tree.get("sender") {
            None => {
                return Err(SerializeError::InvalidField("sender".to_owned()));
            },
            Some(JVal::Str(s)) => s.clone(),
            Some(_) => {
                return Err(bad_field("sender"));
            },
        };
        let recipients: Vec<(String, bool)> = match tree.get("recipients") {
            None => {
                return Err(SerializeError::InvalidField("recipients".to_owned()));
            },
            Some(JVal::Arr(elems)) => {
                match collect_names(elems) {
                    Some(names) => names,
                    None => {
                        return Err(bad_field("recipients"));
                    },
                }
            },
            Some(_) => {
                return Err(bad_field("recipients"));
            },
        };
        let message: String = match tree.get("message") {
            None => {
                return Err(SerializeError::InvalidField("message".to_owned()));
            },
            Some(JVal::Str(s)) => s.clone(),
            Some(_) => {
                return Err(bad_field("message"));
            },
        };
        let responses: RequestedResponses = match tree.get("responses") {
            None => {
                let empty: Vec<Vec<String>> = Vec::new();
                proof {
                    assert(empty.deep_view() =~= Seq::<Seq<Seq<char>>>::empty());
                }
                RequestedResponses { timeout: 0, keyboard: empty }
            },
            Some(r) => match collect_prompt(r) {
                Some(p) => p,
                None => {
                    return Err(bad_field("responses"));
                },
            },
        };
        let m = BauMessage { sender, recipients, message, responses };
        Ok(m)
    }

    /// Builds a request from its wire text: parses the text as JSON and then
    /// builds from the document.  Invalid JSON is rejected with the parser's
    /// description of the fault.
    pub fn builder(string: &str) -> (r: Result<BauMessage, SerializeError>)
        ensures
            match json_of(string@) {
                None => r matches Err(se) && se.model() matches SerializeErrorModel::Json(_),
                Some(j) => match spec_build(j) {
                    Ok(mm) => r matches Ok(m) && m.model() == mm,
                    Err(e) => r matches Err(se) && se.model() == build_err_model(e),
                },
            },
    {
        match parse_json(string) {
            Err(e) => Err(SerializeError::InvalidJson(e)),
            Ok(tree) => BauMessage::from_tree(&tree),
        }
    }
}

/// The JSON documents for recipient names: one string per recipient.  The
/// wire carries the names alone; the reply flags are not written.
pub open spec fn names_json(rs: Seq<(Seq<char>, bool)>) -> Seq<JModel> {
    Seq::new(rs.len(), |i: int| JModel::Str(rs[i].0))
}

/// The JSON documents for one keyboard row.
pub open spec fn row_json(row: Seq<Seq<char>>) -> Seq<JModel> {
    Seq::new(row.len(), |i: int| JModel::Str(row[i]))
}

/// The JSON documents for the keyboard grid.
pub open spec fn grid_json(g: Seq<Seq<Seq<char>>>) -> Seq<JModel> {
    Seq::new(g.len(), |i: int| JModel::Arr(row_json(g[i])))
}

/// The JSON document a request is written as.  The `responses` object is
/// always written, with the grid empty when no reply is solicited.
pub open spec fn spec_request_json(mm: MessageModel) -> JModel {
    JModel::Obj(
        seq![
            ("sender"@, JModel::Str(mm.sender)),
            ("recipients"@, JModel::Arr(names_json(mm.recipients))),
            ("message"@, JModel::Str(mm.message)),
            (
                "responses"@,
                JModel::Obj(
                    seq![
                        ("timeout"@, JModel::UInt(mm.timeout)),
                        ("keyboard"@, JModel::Arr(grid_json(mm.keyboard))),
                    ],
                ),
            ),
        ],
    )
}

/// The text of an encoded request, chunk by chunk in writing order.
pub open spec fn spec_encode_request(mm: MessageModel) -> Seq<char> {
    "{\"sender\":"@ + render_str(mm.sender) + ",\"recipients\":["@ + render_elems(
        names_json(mm.recipients),
    ) + "],\"message\":"@ + render_str(mm.message) + ",\"responses\":{\"timeout\":"@ + spec_dec(
        mm.timeout,
    ) + ",\"keyboard\":["@ + render_elems(grid_json(mm.keyboard)) + "]}}"@
}

/// The encoded request is the rendering of the document it denotes.
#[verifier::rlimit(100)]
pub proof fn lemma_request_render(mm: MessageModel)
    ensures
        spec_encode_request(mm) == spec_render(spec_request_json(mm)),
{
    reveal_strlit("{\"sender\":");
    reveal_strlit(",\"recipients\":[");
    reveal_strlit("],\"message\":");
    reveal_strlit(",\"responses\":{\"timeout\":");
    reveal_strlit(",\"keyboard\":[");
    reveal_strlit("]}}");
    reveal_strlit("sender");
    reveal_strlit("recipients");
    reveal_strlit("message");
    reveal_strlit("responses");
    reveal_strlit("timeout");
    reveal_strlit("keyboard");
    lemma_escape_plain("sender"@);
    lemma_escape_plain("recipients"@);
    lemma_escape_plain("message"@);
    lemma_escape_plain("responses"@);
    lemma_escape_plain("timeout"@);
    lemma_escape_plain("keyboard"@);
    let f0 = ("sender"@, JModel::Str(mm.sender));
    let f1 = ("recipients"@, JModel::Arr(names_json(mm.recipients)));
    let f2 = ("message"@, JModel::Str(mm.message));
    let g0 = ("timeout"@, JModel::UInt(mm.timeout));
    let g1 = ("keyboard"@, JModel::Arr(grid_json(mm.keyboard)));
    let inner = JModel::Obj(seq![g0, g1]);
    let f3 = ("responses"@, inner);
    let fs = seq![f0, f1, f2, f3];
    assert(seq![g0, g1].drop_last() =~= seq![g0]);
    assert(render_fields(seq![g0]) == render_field(g0));
    assert(render_fields(seq![g0, g1]) == render_fields(seq![g0, g1].drop_last()) + seq![',']
        + render_field(g1));
    assert(render_fields(seq![g0, g1]) == render_field(g0) + seq![','] + render_field(g1));
    assert(fs.drop_last() =~= seq![f0, f1, f2]);
    assert(seq![f0, f1, f2].drop_last() =~= seq![f0, f1]);
    assert(seq![f0, f1].drop_last() =~= seq![f0]);
    assert(render_fields(seq![f0]) == render_field(f0));
    assert(render_fields(seq![f0, f1]) == render_fields(seq![f0, f1].drop_last()) + seq![',']
        + render_field(f1));
    assert(render_fields(seq![f0, f1, f2]) == render_fields(seq![f0, f1, f2].drop_last())
        + seq![','] + render_field(f2));
    assert(render_fields(fs) == render_fields(fs.drop_last()) + seq![','] + render_field(f3));
    assert(render_fields(fs) == render_field(f0) + seq![','] + render_field(f1) + seq![',']
        + render_field(f2) + seq![','] + render_field(f3));
    assert(spec_encode_request(mm) =~= seq!['{'] + render_fields(fs) + seq!['}']);
}

impl BauMessage {
    /// Writes a request as its wire text: one JSON object rendering
    /// [`spec_request_json`] of the message, with every string escaped.
    #[verifier::loop_isolation(false)]
    pub fn encode(&self) -> (r: String)
        ensures
            r@ == spec_encode_request(self.model()),
            r@ == spec_render(spec_request_json(self.model())),
    {
        proof {
            lemma_request_render(self.model());
        }
        let ghost rs = self.model().recipients;
        let ghost kb = self.model().keyboard;
        let mut out = String::new();
        out.append("{\"sender\":");
        append_json_str(&mut out, self.sender.as_str());
        out.append(",\"recipients\":[");
        let ghost head1 = "{\"sender\":"@ + render_str(self.sender@) + ",\"recipients\":["@;
        proof {
            assert(out@ =~= head1);
            assert(rs.subrange(0, 0) =~= Seq::<(Seq<char>, bool)>::empty());
            assert(names_json(rs.subrange(0, 0)) =~= Seq::<JModel>::empty());
            assert(out@ =~= head1 + render_elems(names_json(rs.subrange(0, 0))));
        }
        let n = self.recipients.len();
        for i in 0..n
            invariant
                out@ == head1 + render_elems(names_json(rs.subrange(0, i as int))),
        {
            if i > 0 {
                out.append(",");
            }
            append_json_str(&mut out, self.recipients[i].0.as_str());
            proof {
                reveal_strlit(",");
                let prefix = names_json(rs.subrange(0, i as int));
                lemma_render_elems_push(prefix, JModel::Str(rs[i as int].0));
                assert(names_json(rs.subrange(0, i + 1)) =~= prefix.push(
                    JModel::Str(rs[i as int].0),
                ));
                assert(rs[i as int].0 == self.recipients@[i as int].0@);
                if i > 0 {
                    assert(","@ =~= seq![',']);
                    assert(out@ =~= head1 + render_elems(names_json(rs.subrange(0, i + 1))));
                } else {
                    assert(prefix.len() == 0);
                    assert(out@ =~= head1 + render_elems(names_json(rs.subrange(0, i + 1))));
                }
            }
        }
        proof {
            assert(rs.subrange(0, rs.len() as int) =~= rs);
        }
        out.append("],\"message\":");
        append_json_str(&mut out, self.message.as_str());
        out.append(",\"responses\":{\"timeout\":");
        let t = u64_string(self.responses.timeout);
        out.append(t.as_str());
        out.append(",\"keyboard\":[");
        let ghost head2 = head1 + render_elems(names_json(rs)) + "],\"message\":"@ + render_str(
            self.message@,
        ) + ",\"responses\":{\"timeout\":"@ + spec_dec(self.responses.timeout)
            + ",\"keyboard\":["@;
        proof {
            assert(kb.subrange(0, 0) =~= Seq::<Seq<Seq<char>>>::empty());
            assert(grid_json(kb.subrange(0, 0)) =~= Seq::<JModel>::empty());
            assert(out@ =~= head2 + render_elems(grid_json(kb.subrange(0, 0))));
        }
        let rows = self.responses.keyboard.len();
        for i in 0..rows
            invariant
                out@ == head2 + render_elems(grid_json(kb.subrange(0, i as int))),
        {
            if i > 0 {
                out.append(",");
            }
            out.append("[");
            let ghost row = kb[i as int];
            let ghost head3 = out@;
            proof {
                reveal_strlit(",");
                reveal_strlit("[");
                assert(row.subrange(0, 0) =~= Seq::<Seq<char>>::empty());
                assert(row_json(row.subrange(0, 0)) =~= Seq::<JModel>::empty());
                assert(out@ =~= head3 + render_elems(row_json(row.subrange(0, 0))));
            }
            let cells = self.responses.keyboard[i].len();
            for j in 0..cells
                invariant
                    out@ == head3 + render_elems(row_json(row.subrange(0, j as int))),
            {
                if j > 0 {
                    out.append(",");
                }
                append_json_str(&mut out, self.responses.keyboard[i][j].as_str());
                proof {
                    reveal_strlit(",");
                    let prefix = row_json(row.subrange(0, j as int));
                    lemma_render_elems_push(prefix, JModel::Str(row[j as int]));
                    assert(row_json(row.subrange(0, j + 1)) =~= prefix.push(
                        JModel::Str(row[j as int]),
                    ));
                    assert(row[j as int] == self.responses.keyboard@[i as int]@[j as int]@);
                    assert(","@ =~= seq![',']);
                    assert(out@ =~= head3 + render_elems(row_json(row.subrange(0, j + 1))));
                }
            }
            out.append("]");
            proof {
                reveal_strlit(",");
                reveal_strlit("[");
                reveal_strlit("]");
                assert(row.subrange(0, row.len() as int) =~= row);
                let prefix = grid_json(kb.subrange(0, i as int));
                lemma_render_elems_push(prefix, JModel::Arr(row_json(row)));
                assert(grid_json(kb.subrange(0, i + 1)) =~= prefix.push(
                    JModel::Arr(row_json(row)),
                ));
                assert(spec_render(JModel::Arr(row_json(row))) == seq!['['] + render_elems(
                    row_json(row),
                ) + seq![']']);
                assert(","@ =~= seq![',']);
                assert("["@ =~= seq!['[']);
                assert("]"@ =~= seq![']']);
                assert(out@ =~= head2 + render_elems(grid_json(kb.subrange(0, i + 1))));
            }
        }
        out.append("]}}");
        proof {
            assert(kb.subrange(0, kb.len() as int) =~= kb);
            assert(out@ =~= spec_encode_request(self.model()));
        }
        out
    }
}

/// A message as the wire carries it: the recipient names with every reply
/// flag set, everything else unchanged.
pub open spec fn wire_view(mm: MessageModel) -> MessageModel {
    MessageModel {
        recipients: Seq::new(mm.recipients.len(), |i: int| (mm.recipients[i].0, true)),
        ..mm
    }
}

/// Round trip: the document an encoded request denotes builds back to the
/// message it came from, with every recipient flagged as awaiting a reply -
/// the wire carries recipient names alone, so the flags are not preserved.
#[verifier::rlimit(100)]
pub proof fn lemma_request_round_trip(mm: MessageModel)
    ensures
        spec_build(spec_request_json(mm)) == Ok::<MessageModel, BuildErr>(wire_view(mm)),
{
    reveal_strlit("sender");
    reveal_strlit("recipients");
    reveal_strlit("message");
    reveal_strlit("responses");
    reveal_strlit("timeout");
    reveal_strlit("keyboard");
    let f0 = ("sender"@, JModel::Str(mm.sender));
    let f1 = ("recipients"@, JModel::Arr(names_json(mm.recipients)));
    let f2 = ("message"@, JModel::Str(mm.message));
    let g0 = ("timeout"@, JModel::UInt(mm.timeout));
    let g1 = ("keyboard"@, JModel::Arr(grid_json(mm.keyboard)));
    let inner = JModel::Obj(seq![g0, g1]);
    let f3 = ("responses"@, inner);
    let fs = seq![f0, f1, f2, f3];
    let s1 = seq![f1, f2, f3];
    let s2 = seq![f2, f3];
    let s3 = seq![f3];
    assert(fs.drop_first() =~= s1);
    assert(s1.drop_first() =~= s2);
    assert(s2.drop_first() =~= s3);
    assert("sender"@.len() == 6);
    assert("recipients"@.len() == 10);
    assert("message"@.len() == 7);
    assert("responses"@.len() == 9);
    assert("timeout"@.len() == 7);
    assert("keyboard"@.len() == 8);
    assert(spec_field(fs, "sender"@) == Some(f0.1));
    assert(spec_field(fs, "recipients"@) == spec_field(s1, "recipients"@));
    assert(spec_field(s1, "recipients"@) == Some(f1.1));
    assert(spec_field(fs, "message"@) == spec_field(s1, "message"@));
    assert(spec_field(s1, "message"@) == spec_field(s2, "message"@));
    assert(spec_field(s2, "message"@) == Some(f2.1));
    assert(spec_field(fs, "responses"@) == spec_field(s1, "responses"@));
    assert(spec_field(s1, "responses"@) == spec_field(s2, "responses"@));
    assert(spec_field(s2, "responses"@) == spec_field(s3, "responses"@));
    assert(spec_field(s3, "responses"@) == Some(f3.1));
    assert(seq![g0, g1].drop_first() =~= seq![g1]);
    assert(spec_field(seq![g0, g1], "timeout"@) == Some(g0.1));
    assert(spec_field(seq![g0, g1], "keyboard"@) == spec_field(seq![g1], "keyboard"@));
    assert(spec_field(seq![g1], "keyboard"@) == Some(g1.1));
    let names = spec_strings(names_json(mm.recipients));
    assert forall|i: int| 0 <= i < names_json(mm.recipients).len() implies (#[trigger] names_json(
        mm.recipients,
    )[i]) is Str by {}
    assert(names is Some);
    assert(names->Some_0 =~= Seq::new(mm.recipients.len(), |i: int| mm.recipients[i].0));
    let rows = grid_json(mm.keyboard);
    assert forall|i: int| 0 <= i < rows.len() implies (#[trigger] rows[i]) is Arr && spec_strings(
        rows[i]->Arr_0,
    ) is Some by {
        assert forall|j: int| 0 <= j < row_json(mm.keyboard[i]).len() implies (#[trigger] row_json(
            mm.keyboard[i],
        )[j]) is Str by {}
    }
    let grid = spec_grid(rows);
    assert(grid is Some);
    assert forall|i: int| 0 <= i < mm.keyboard.len() implies #[trigger] grid->Some_0[i]
        == mm.keyboard[i] by {
        assert(spec_strings(row_json(mm.keyboard[i]))->Some_0 =~= mm.keyboard[i]);
    }
    assert(grid->Some_0 =~= mm.keyboard);
    assert(spec_prompt(inner) == Some((mm.timeout, mm.keyboard)));
    let built = spec_build(spec_request_json(mm));
    assert(built is Ok);
    assert(built->Ok_0.recipients =~= wire_view(mm).recipients);
    assert(built->Ok_0 == wire_view(mm));
}

/// Collects the recipient names of a request, each flagged as awaiting a
/// reply, when every element is a string.
#[verifier::loop_isolation(false)]
fn collect_names(elems: &Vec<JVal>) -> (r: Option<Vec<(String, bool)>>)
    ensures
        match r {
            Some(names) => {
                let strs = spec_strings(models_of(elems@));
                strs is Some && names.deep_view() == Seq::new(
                    strs->Some_0.len(),
                    |i: int| (strs->Some_0[i], true),
                )
            },
            None => spec_strings(models_of(elems@)) is None,
        },
{
    let ghost ms = models_of(elems@);
    proof {
        lemma_models_of_len(elems@);
        assert forall|k: int| 0 <= k < elems@.len() implies #[trigger] ms[k]
            == elems@[k].model() by {
            lemma_models_of_index(elems@, k);
        }
    }
    let n = elems.len();
    let mut names: Vec<(String, bool)> = Vec::new();
    for i in 0..n
        invariant
            n == elems@.len(),
            ms == models_of(elems@),
            ms.len() == n,
            forall|k: int| 0 <= k < n ==> #[trigger] ms[k] == elems@[k].model(),
            names@.len() == i,
            forall|k: int| 0 <= k < i ==> (#[trigger] ms[k]) is Str,
            forall|k: int|
                0 <= k < i ==> (#[trigger] names@[k].0@, names@[k].1) == (ms[k]->Str_0, true),
    {
        match &elems[i] {
            JVal::Str(s) => {
                names.push((s.clone(), true));
            },
            _ => {
                assert(!(ms[i as int] is Str));
                return None;
            },
        }
    }
    proof {
        let strs = spec_strings(ms);
        assert(strs is Some);
        assert(names.deep_view() =~= Seq::new(strs->Some_0.len(), |i: int| (strs->Some_0[i], true)));
    }
    Some(names)
}

/// Collects the prompt of a request, when the `responses` document is an
/// object with an unsigned integer deadline and a grid of labels.
#[verifier::loop_isolation(false)]
fn collect_prompt(r: &JVal) -> (out: Option<RequestedResponses>)
    ensures
        match out {
            Some(p) => {
                let prompt = spec_prompt(r.model());
                prompt is Some && p.timeout == prompt->Some_0.0 && p.keyboard.deep_view()
                    == prompt->Some_0.1
            },
            None => spec_prompt(r.model()) is None,
        },
{
    let timeout: u64 = match r.get("timeout") {
        Some(JVal::UInt(t)) => *t,
        _ => {
            return None;
        },
    };
    let rows: &Vec<JVal> = match r.get("keyboard") {
        Some(JVal::Arr(rows)) => rows,
        _ => {
            return None;
        },
    };
    let ghost rms = models_of(rows@);
    proof {
        lemma_models_of_len(rows@);
        assert forall|k: int| 0 <= k < rows@.len() implies #[trigger] rms[k]
            == rows@[k].model() by {
            lemma_models_of_index(rows@, k);
        }
    }
    let n = rows.len();
    let mut keyboard: Vec<Vec<String>> = Vec::new();
    for i in 0..n
        invariant
            n == rows@.len(),
            rms == models_of(rows@),
            rms.len() == n,
            forall|k: int| 0 <= k < n ==> #[trigger] rms[k] == rows@[k].model(),
            keyboard@.len() == i,
            forall|k: int|
                0 <= k < i ==> (#[trigger] rms[k]) is Arr && spec_strings(rms[k]->Arr_0) is Some,
            forall|k: int|
                0 <= k < i ==> #[trigger] keyboard@[k].deep_view() == spec_strings(
                    rms[k]->Arr_0,
                )->Some_0,
    {
        match &rows[i] {
            JVal::Arr(cells) => {
                match collect_row(cells) {
                    Some(row) => {
                        keyboard.push(row);
                    },
                    None => {
                        assert(spec_strings(rms[i as int]->Arr_0) is None);
                        return None;
                    },
                }
            },
            _ => {
                assert(!(rms[i as int] is Arr));
                return None;
            },
        }
    }
    proof {
        let grid = spec_grid(rms);
        assert(grid is Some);
        assert(keyboard.deep_view() =~= grid->Some_0);
    }
    Some(RequestedResponses { timeout, keyboard })
}

/// Collects one keyboard row, when every cell is a string.
#[verifier::loop_isolation(false)]
fn collect_row(cells: &Vec<JVal>) -> (r: Option<Vec<String>>)
    ensures
        match r {
            Some(row) => spec_strings(models_of(cells@)) is Some && row.deep_view()
                == spec_strings(models_of(cells@))->Some_0,
            None => spec_strings(models_of(cells@)) is None,
        },
{
    let ghost ms = models_of(cells@);
    proof {
        lemma_models_of_len(cells@);
        assert forall|k: int| 0 <= k < cells@.len() implies #[trigger] ms[k]
            == cells@[k].model() by {
            lemma_models_of_index(cells@, k);
        }
    }
    let n = cells.len();
    let mut row: Vec<String> = Vec::new();
    for i in 0..n
        invariant
            n == cells@.len(),
            ms == models_of(cells@),
            ms.len() == n,
            forall|k: int| 0 <= k < n ==> #[trigger] ms[k] == cells@[k].model(),
            row@.len() == i,
            forall|k: int| 0 <= k < i ==> (#[trigger] ms[k]) is Str,
            forall|k: int| 0 <= k < i ==> #[trigger] row@[k]@ == ms[k]->Str_0,
    {
        match &cells[i] {
            JVal::Str(s) => {
                row.push(s.clone());
            },
            _ => {
                assert(!(ms[i as int] is Str));
                return None;
            },
        }
    }
    proof {
        assert(spec_strings(ms) is Some);
        assert(row.deep_view() =~= spec_strings(ms)->Some_0);
    }
    Some(row)
}

} // verus!
