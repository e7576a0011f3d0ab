//! Encoding and decoding the per-recipient responses of the wire protocol.
//!
//! One response is one JSON object.  A recipient outcome is written as
//! `{"type":"Recipient","recipient":R,"response":{"Ok":S}}` or with
//! `{"Err":{"type":"Uncontactable"}}` (or `"Timeout"`) in place of the `Ok`;
//! a rejected request is reported as
//! `{"type":"InvalidData","kind":K,"detail":D}` with the rejection's variant
//! name and text.

use vstd::prelude::*;
use vstd::string::StrSliceExecFns;
use vstd::string::StringExecFns;
use crate::json::{JModel, JVal, json_of, spec_get, spec_field, parse_json, str_eq};
use crate::types::{BauBotError, BauResponse, BauServerResponse, ResponseModel, SerializeError,
    SerializeErrorModel};
use crate::text::{spec_render, render_str, render_fields, render_field, lemma_escape_plain,
    append_json_str};

verus! {

/// The wire name of a per-recipient failure.
pub open spec fn err_name(e: BauBotError) -> Seq<char> {
    match e {
        BauBotError::Uncontactable => "Uncontactable"@,
        BauBotError::Timeout => "Timeout"@,
    }
}

/// The JSON document for a recipient's outcome: the chosen option under
/// `Ok`, or the failure's name under `Err`.
pub open spec fn result_json(r: Result<Seq<char>, BauBotError>) -> JModel {
    match r {
        Ok(s) => JModel::Obj(seq![("Ok"@, JModel::Str(s))]),
        Err(e) => JModel::Obj(
            seq![("Err"@, JModel::Obj(seq![("type"@, JModel::Str(err_name(e)))]))],
        ),
    }
}

/// The JSON document a response is written as.
pub open spec fn spec_response_json(rm: ResponseModel) -> JModel {
    match rm {
        ResponseModel::Recipient { recipient, response } => JModel::Obj(
            seq![
                ("type"@, JModel::Str("Recipient"@)),
                ("recipient"@, JModel::Str(recipient)),
                ("response"@, result_json(response)),
            ],
        ),
        ResponseModel::InvalidData(e) => JModel::Obj(
            seq![
                ("type"@, JModel::Str("InvalidData"@)),
                ("kind"@, JModel::Str(invalid_kind(e))),
                ("detail"@, JModel::Str(invalid_detail(e))),
            ],
        ),
    }
}

/// The wire name of a rejection's variant.
pub open spec fn invalid_kind(e: SerializeErrorModel) -> Seq<char> {
    match e {
        SerializeErrorModel::Json(_) => "InvalidJson"@,
        SerializeErrorModel::Field(_) => "InvalidField"@,
    }
}

/// The text a rejection carries.
pub open spec fn invalid_detail(e: SerializeErrorModel) -> Seq<char> {
    match e {
        SerializeErrorModel::Json(t) => t,
        SerializeErrorModel::Field(t) => t,
    }
}

/// The text of an encoded response, chunk by chunk in writing order.
pub open spec fn spec_encode_response(rm: ResponseModel) -> Seq<char> {
    match rm {
        ResponseModel::Recipient { recipient, response } => {
            let head = "{\"type\":\"Recipient\",\"recipient\":"@ + render_str(recipient);
            match response {
                Ok(s) => head + ",\"response\":{\"Ok\":"@ + render_str(s) + "}}"@,
                Err(e) => head + ",\"response\":{\"Err\":{\"type\":"@ + render_str(err_name(e))
                    + "}}}"@,
            }
        },
        ResponseModel::InvalidData(e) => "{\"type\":\"InvalidData\",\"kind\":"@ + render_str(
            invalid_kind(e),
        ) + ",\"detail\":"@ + render_str(invalid_detail(e)) + "}"@,
    }
}

/// The encoded response is the rendering of the document it denotes.
#[verifier::rlimit(100)]
pub proof fn lemma_response_render(rm: ResponseModel)
    ensures
        spec_encode_response(rm) == spec_render(spec_response_json(rm)),
{
    reveal_strlit("{\"type\":\"Recipient\",\"recipient\":");
    reveal_strlit(",\"response\":{\"Ok\":");
    reveal_strlit(",\"response\":{\"Err\":{\"type\":");
    reveal_strlit("}}");
    reveal_strlit("}}}");
    reveal_strlit("{\"type\":\"InvalidData\",\"kind\":");
    reveal_strlit(",\"detail\":");
    reveal_strlit("}");
    reveal_strlit("type");
    reveal_strlit("recipient");
    reveal_strlit("response");
    reveal_strlit("Recipient");
    reveal_strlit("InvalidData");
    reveal_strlit("kind");
    reveal_strlit("detail");
    reveal_strlit("Ok");
    reveal_strlit("Err");
    reveal_strlit("Uncontactable");
    reveal_strlit("Timeout");
    lemma_escape_plain("type"@);
    lemma_escape_plain("recipient"@);
    lemma_escape_plain("response"@);
    lemma_escape_plain("Recipient"@);
    lemma_escape_plain("InvalidData"@);
    lemma_escape_plain("kind"@);
    lemma_escape_plain("detail"@);
    lemma_escape_plain("Ok"@);
    lemma_escape_plain("Err"@);
    lemma_escape_plain("Uncontactable"@);
    lemma_escape_plain("Timeout"@);
    match rm {
        ResponseModel::Recipient { recipient, response } => {
            let f0 = ("type"@, JModel::Str("Recipient"@));
            let f1 = ("recipient"@, JModel::Str(recipient));
            let f2 = ("response"@, result_json(response));
            let fs = seq![f0, f1, f2];
            assert(fs.drop_last() =~= seq![f0, f1]);
            assert(seq![f0, f1].drop_last() =~= seq![f0]);
            assert(render_fields(seq![f0]) == render_field(f0));
            assert(render_fields(seq![f0, f1]) == render_fields(seq![f0, f1].drop_last())
                + seq![','] + render_field(f1));
            assert(render_fields(fs) == render_fields(fs.drop_last()) + seq![','] + render_field(
                f2,
            ));
            match response {
                Ok(s) => {
                    let k0 = ("Ok"@, JModel::Str(s));
                    assert(render_fields(seq![k0]) == render_field(k0));
                    assert(spec_encode_response(rm) =~= seq!['{'] + render_fields(fs)
                        + seq!['}']);
                },
                Err(e) => {
                    let n0 = ("type"@, JModel::Str(err_name(e)));
                    let k0 = ("Err"@, JModel::Obj(seq![n0]));
                    assert(render_fields(seq![n0]) == render_field(n0));
                    assert(render_fields(seq![k0]) == render_field(k0));
                    if e is Uncontactable {
                        assert(spec_encode_response(rm) =~= seq!['{'] + render_fields(fs)
                            + seq!['}']);
                    } else {
                        assert(spec_encode_response(rm) =~= seq!['{'] + render_fields(fs)
                            + seq!['}']);
                    }
                },
            }
        },
        ResponseModel::InvalidData(e) => {
            let f0 = ("type"@, JModel::Str("InvalidData"@));
            let f1 = ("kind"@, JModel::Str(invalid_kind(e)));
            let f2 = ("detail"@, JModel::Str(invalid_detail(e)));
            let fs = seq![f0, f1, f2];
            assert(fs.drop_last() =~= seq![f0, f1]);
            assert(seq![f0, f1].drop_last() =~= seq![f0]);
            assert(render_fields(seq![f0]) == render_field(f0));
            assert(render_fields(seq![f0, f1]) == render_fields(seq![f0, f1].drop_last())
                + seq![','] + render_field(f1));
            assert(render_fields(fs) == render_fields(fs.drop_last()) + seq![','] + render_field(
                f2,
            ));
            if e is Json {
                assert(spec_encode_response(rm) =~= seq!['{'] + render_fields(fs) + seq!['}']);
            } else {
                assert(spec_encode_response(rm) =~= seq!['{'] + render_fields(fs) + seq!['}']);
            }
        },
    }
}

impl BauServerResponse {
    /// Writes a response as its wire text: one JSON object rendering
    /// [`spec_response_json`] of the response, with every string escaped.
    pub fn encode(&self) -> (r: String)
        ensures
            r@ == spec_encode_response(self.model()),
            r@ == spec_render(spec_response_json(self.model())),
    {
        proof {
            lemma_response_render(self.model());
        }
        let mut out = String::new();
        match self {
            BauServerResponse::Recipient { recipient, response } => {
                out.append("{\"type\":\"Recipient\",\"recipient\":");
                append_json_str(&mut out, recipient.as_str());
                match response {
                    Ok(s) => {
                        out.append(",\"response\":{\"Ok\":");
                        append_json_str(&mut out, s.as_str());
                        out.append("}}");
                    },
                    Err(e) => {
                        out.append(",\"response\":{\"Err\":{\"type\":");
                        match e {
                            BauBotError::Uncontactable => {
                                append_json_str(&mut out, "Uncontactable");
                            },
                            BauBotError::Timeout => {
                                append_json_str(&mut out, "Timeout");
                            },
                        }
                        out.append("}}}");
                    },
                }
            },
            BauServerResponse::InvalidData(e) => {
                out.append("{\"type\":\"InvalidData\",\"kind\":");
                match e {
                    SerializeError::InvalidJson(t) => {
                        append_json_str(&mut out, "InvalidJson");
                        out.append(",\"detail\":");
                        append_json_str(&mut out, t.as_str());
                    },
                    SerializeError::InvalidField(t) => {
                        append_json_str(&mut out, "InvalidField");
                        out.append(",\"detail\":");
                        append_json_str(&mut out, t.as_str());
                    },
                }
                out.append("}");
            },
        }
        out
    }
}

/// The outcome a `response` document describes: the chosen option under
/// `Ok`, or a named failure under `Err`.
pub open spec fn spec_result(j: JModel) -> Option<Result<Seq<char>, BauBotError>> {
    match spec_get(j, "Ok"@) {
        Some(ok) => if ok is Str {
            Some(Ok(ok->Str_0))
        } else {
            None
        },
        None => match spec_get(j, "Err"@) {
            Some(e) => match spec_get(e, "type"@) {
                Some(n) => if n is Str && n->Str_0 == "Uncontactable"@ {
                    Some(Err(BauBotError::Uncontactable))
                } else if n is Str && n->Str_0 == "Timeout"@ {
                    Some(Err(BauBotError::Timeout))
                } else {
                    None
                },
                None => None,
            },
            None => None,
        },
    }
}

/// What decoding a response document yields: the response, or nothing when
/// the document has the wrong shape.
pub open spec fn spec_response_build(j: JModel) -> Option<ResponseModel> {
    match spec_get(j, "type"@) {
        Some(t) => if t is Str && t->Str_0 == "Recipient"@ {
            match (spec_get(j, "recipient"@), spec_get(j, "response"@)) {
                (Some(r), Some(resp)) => if r is Str && spec_result(resp) is Some {
                    Some(
                        ResponseModel::Recipient {
                            recipient: r->Str_0,
                            response: spec_result(resp)->Some_0,
                        },
                    )
                } else {
                    None
                },
                _ => None,
            }
        } else if t is Str && t->Str_0 == "InvalidData"@ {
            match (spec_get(j, "kind"@), spec_get(j, "detail"@)) {
                (Some(k), Some(d)) => if k is Str && d is Str && k->Str_0 == "InvalidJson"@ {
                    Some(ResponseModel::InvalidData(SerializeErrorModel::Json(d->Str_0)))
                } else if k is Str && d is Str && k->Str_0 == "InvalidField"@ {
                    Some(ResponseModel::InvalidData(SerializeErrorModel::Field(d->Str_0)))
                } else {
                    None
                },
                _ => None,
            }
        } else {
            None
        },
        None => None,
    }
}

impl BauServerResponse {
    /// Decodes a response from a parsed document, accepting exactly the
    /// documents [`spec_response_build`] accepts.
    pub fn from_tree(tree: &JVal) -> (r: Option<BauServerResponse>)
        ensures
            match r {
                Some(resp) => spec_response_build(tree.model()) == Some(resp.model()),
                None => spec_response_build(tree.model()) is None,
            },
    {
        let t: &String = match tree.get("type") {
            Some(JVal::Str(t)) => t,
            _ => {
                return None;
            },
        };
        if str_eq(t.as_str(), "Recipient") {
            let recipient: String = match tree.get("recipient") {
                Some(JVal::Str(r)) => r.clone(),
                _ => {
                    return None;
                },
            };
            let resp = match tree.get("response") {
                Some(resp) => resp,
                None => {
                    return None;
                },
            };
            let response: BauResponse = match result_from_tree(resp) {
                Some(out) => out,
                None => {
                    return None;
                },
            };
            Some(BauServerResponse::Recipient { recipient, response })
        } else if str_eq(t.as_str(), "InvalidData") {
            let kind: &String = match tree.get("kind") {
                Some(JVal::Str(k)) => k,
                _ => {
                    return None;
                },
            };
            let detail: String = match tree.get("detail") {
                Some(JVal::Str(d)) => d.clone(),
                _ => {
                    return None;
                },
            };
            if str_eq(kind.as_str(), "InvalidJson") {
                Some(BauServerResponse::InvalidData(SerializeError::InvalidJson(detail)))
            } else if str_eq(kind.as_str(), "InvalidField") {
                Some(BauServerResponse::InvalidData(SerializeError::InvalidField(detail)))
            } else {
                None
            }
        } else {
            None
        }
    }
}

/// Decodes a recipient's outcome from its `response` document.
fn result_from_tree(j: &JVal) -> (r: Option<BauResponse>)
    ensures
        match r {
            Some(out) => {
                let m = spec_result(j.model());
                m is Some && m->Some_0 == (match out {
                    Ok(s) => Ok(s@),
                    Err(e) => Err(e),
                })
            },
            None => spec_result(j.model()) is None,
        },
{
    match j.get("Ok") {
        Some(JVal::Str(s)) => {
            return Some(Ok(s.clone()));
        },
        Some(_) => {
            return None;
        },
        None => {},
    }
    let e = match j.get("Err") {
        Some(e) => e,
        None => {
            return None;
        },
    };
    let n: &String = match e.get("type") {
        Some(JVal::Str(n)) => n,
        _ => {
            return None;
        },
    };
    if str_eq(n.as_str(), "Uncontactable") {
        Some(Err(BauBotError::Uncontactable))
    } else if str_eq(n.as_str(), "Timeout") {
        Some(Err(BauBotError::Timeout))
    } else {
        None
    }
}

/// Round trip: the document an encoded response denotes decodes back to the
/// very response it came from.
#[verifier::rlimit(100)]
pub proof fn lemma_response_round_trip(rm: ResponseModel)
    ensures
        spec_response_build(spec_response_json(rm)) == Some(rm),
{
    reveal_strlit("type");
    reveal_strlit("recipient");
    reveal_strlit("response");
    reveal_strlit("Recipient");
    reveal_strlit("InvalidData");
    reveal_strlit("kind");
    reveal_strlit("detail");
    reveal_strlit("Ok");
    reveal_strlit("Err");
    reveal_strlit("Uncontactable");
    reveal_strlit("Timeout");
    reveal_strlit("InvalidJson");
    reveal_strlit("InvalidField");
    assert("type"@.len() == 4);
    assert("recipient"@.len() == 9);
    assert("response"@.len() == 8);
    assert("Recipient"@.len() == 9);
    assert("InvalidData"@.len() == 11);
    assert("kind"@.len() == 4);
    assert("detail"@.len() == 6);
    assert("Ok"@.len() == 2);
    assert("Err"@.len() == 3);
    assert("Uncontactable"@.len() == 13);
    assert("Timeout"@.len() == 7);
    assert("InvalidJson"@.len() == 11);
    assert("InvalidField"@.len() == 12);
    assert("type"@[0] == 't' && "kind"@[0] == 'k');
    assert("type"@ != "kind"@);
    match rm {
        ResponseModel::Recipient { recipient, response } => {
            let f0 = ("type"@, JModel::Str("Recipient"@));
            let f1 = ("recipient"@, JModel::Str(recipient));
            let f2 = ("response"@, result_json(response));
            let fs = seq![f0, f1, f2];
            let s1 = seq![f1, f2];
            let s2 = seq![f2];
            assert(fs.drop_first() =~= s1);
            assert(s1.drop_first() =~= s2);
            assert(spec_field(fs, "type"@) == Some(f0.1));
            assert(spec_field(fs, "recipient"@) == spec_field(s1, "recipient"@));
            assert(spec_field(s1, "recipient"@) == Some(f1.1));
            assert(spec_field(fs, "response"@) == spec_field(s1, "response"@));
            assert(spec_field(s1, "response"@) == spec_field(s2, "response"@));
            assert(spec_field(s2, "response"@) == Some(f2.1));
            match response {
                Ok(t) => {
                    let k0 = ("Ok"@, JModel::Str(t));
                    assert(spec_field(seq![k0], "Ok"@) == Some(k0.1));
                    assert(spec_result(result_json(response)) == Some(response));
                },
                Err(e) => {
                    let n0 = ("type"@, JModel::Str(err_name(e)));
                    let k0 = ("Err"@, JModel::Obj(seq![n0]));
                    assert(seq![k0].drop_first() =~= Seq::<(Seq<char>, JModel)>::empty());
                    assert(spec_field(seq![k0], "Ok"@) == spec_field(
                        Seq::<(Seq<char>, JModel)>::empty(),
                        "Ok"@,
                    ));
                    assert(spec_field(Seq::<(Seq<char>, JModel)>::empty(), "Ok"@) is None);
                    assert(spec_field(seq![k0], "Err"@) == Some(k0.1));
                    assert(spec_field(seq![n0], "type"@) == Some(n0.1));
                    assert(spec_result(result_json(response)) == Some(response));
                },
            }
            assert(spec_response_build(spec_response_json(rm)) == Some(rm));
        },
        ResponseModel::InvalidData(e) => {
            let f0 = ("type"@, JModel::Str("InvalidData"@));
            let f1 = ("kind"@, JModel::Str(invalid_kind(e)));
            let f2 = ("detail"@, JModel::Str(invalid_detail(e)));
            let fs = seq![f0, f1, f2];
            let s1 = seq![f1, f2];
            let s2 = seq![f2];
            assert(fs.drop_first() =~= s1);
            assert(s1.drop_first() =~= s2);
            assert(spec_field(fs, "type"@) == Some(f0.1));
            assert(spec_field(fs, "kind"@) == spec_field(s1, "kind"@));
            assert(spec_field(s1, "kind"@) == Some(f1.1));
            assert(spec_field(fs, "detail"@) == spec_field(s1, "detail"@));
            assert(spec_field(s1, "detail"@) == spec_field(s2, "detail"@));
            assert(spec_field(s2, "detail"@) == Some(f2.1));
            assert(spec_response_build(spec_response_json(rm)) == Some(rm));
        },
    }
}

/// What one payload read from the response stream means to the client: the
/// response it decodes to, or the signal to stop reading - an empty payload
/// (the peer closed the connection) or one that does not decode.
pub open spec fn spec_reader_step(s: Seq<char>) -> Option<ResponseModel> {
    if s.len() == 0 {
        None
    } else {
        match json_of(s) {
            None => None,
            Some(j) => spec_response_build(j),
        }
    }
}

/// Decides what one payload read from the response stream means: a decoded
/// response to forward to the caller, or nothing, on which the reader stops.
pub fn reader_step(payload: &str) -> (r: Option<BauServerResponse>)
    ensures
        match r {
            Some(resp) => spec_reader_step(payload@) == Some(resp.model()),
            None => spec_reader_step(payload@) is None,
        },
{
    if payload.unicode_len() == 0 {
        return None;
    }
    match parse_json(payload) {
        Err(_) => None,
        Ok(tree) => BauServerResponse::from_tree(&tree),
    }
}

} // verus!
