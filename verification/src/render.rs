//! The wire and display forms of a record: what an external consumer
//! of serialized question snapshots works with.

use vstd::prelude::*;
use vstd::string::StringExecFns;

use crate::ident::{id_text, id_text_of};
use crate::record::{opt_model, Question};

verus! {

/// A question snapshot in wire form: the identifier in its canonical
/// text, the answer as plain text (empty while unanswered), the
/// provenance kept optional.
#[allow(non_camel_case_types)]
pub struct questionStruct {
    pub id: String,
    pub text: String,
    pub answer: String,
    pub source: Option<String>,
}

/// The wire form of a record.
pub fn to_wire(q: &Question) -> (r: questionStruct)
    ensures
        r.id@ == id_text_of(q.id),
        r.text@ == q@.text,
        r.answer@ == match q@.answer {
            Some(a) => a,
            None => Seq::<char>::empty(),
        },
        opt_model(r.source) == q@.source,
{
    let answer = match &q.answer {
        Some(a) => a.clone(),
        None => String::new(),
    };
    let source = match &q.source {
        Some(s) => Some(s.clone()),
        None => None,
    };
    questionStruct { id: id_text(q.id), text: q.text.clone(), answer, source }
}

/// Display properties carrying one question snapshot.
#[allow(non_camel_case_types)]
pub struct questionProps {
    pub question: questionStruct,
}

/// The display text of a question snapshot: the prompt, the answer
/// under its label, and an annotation line with the identifier and,
/// when present, the provenance.
pub open spec fn question_text(q: questionStruct) -> Seq<char> {
    q.text@ + "\nAnswer:\n"@ + q.answer@ + "\n[id: "@ + q.id@ + "]"@ + match q.source {
        Some(s) => "; source: "@ + s@,
        None => Seq::<char>::empty(),
    }
}

/// Renders one question snapshot to its display text.
pub fn question(props: &questionProps) -> (r: String)
    ensures
        r@ == question_text(props.question),
{
    let q = &props.question;
    let mut out = q.text.clone();
    out.append("\nAnswer:\n");
    out.append(q.answer.as_str());
    out.append("\n[id: ");
    out.append(q.id.as_str());
    out.append("]");
    match &q.source {
        Some(s) => {
            out.append("; source: ");
            out.append(s.as_str());
        },
        None => {},
    }
    proof {
        assert(out@ =~= question_text(props.question));
    }
    out
}

/// Renders a cookie value inside its display wrapper.
pub fn render_cookie(cookie: &str) -> (r: String)
    ensures
        r@ == "<div><p>"@ + cookie@ + "</p></div>"@,
{
    let mut out = "<div><p>".to_owned();
    out.append(cookie);
    out.append("</p></div>");
    proof {
        assert(out@ =~= "<div><p>"@ + cookie@ + "</p></div>"@);
    }
    out
}

} // verus!
