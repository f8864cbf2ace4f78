//! The diagnostic formatter: turning a script failure plus a captured call
//! trace into an error record, and rendering that record as a report.

use vstd::prelude::*;
use vstd::string::StringExecFns;
use crate::text::push_char;
use crate::value::{render, render_spec, Value};

verus! {

/// A fatal error report: an ordered sequence of source-location marks forming
/// a call trace, a formatted message, and an optional help string.
#[derive(Debug, PartialEq, Eq)]
pub struct BasicError {
    pub marks: Vec<String>,
    pub message: String,
    pub help: Option<String>,
}

/// The text of the trace section of a report: one line per mark, outermost
/// call first.
pub open spec fn marks_text(marks: Seq<Seq<char>>) -> Seq<char>
    decreases marks.len(),
{
    if marks.len() == 0 {
        Seq::empty()
    } else {
        marks_text(marks.drop_last()) + marks.last() + seq!['\n']
    }
}

impl BasicError {
    /// The full report text: the trace, then the message, then the help
    /// string on a line of its own when one is present.
    pub open spec fn spec_format(self) -> Seq<char> {
        marks_text(self.marks.deep_view()) + self.message@ + match self.help {
            Some(h) => seq!['\n'] + h@,
            None => Seq::<char>::empty(),
        }
    }

    /// Renders the report for display on the diagnostic stream.
    pub fn format(&self) -> (r: String)
        ensures
            r@ == self.spec_format(),
    {
        let mut r = String::new();
        let mut i: usize = 0;
        while i < self.marks.len()
            invariant
                i <= self.marks.len(),
                r@ == marks_text(self.marks.deep_view().take(i as int)),
            decreases self.marks.len() - i,
        {
            r.append(self.marks[i].as_str());
            push_char(&mut r, '\n');
            proof {
                let dv = self.marks.deep_view();
                assert(dv.take(i + 1).drop_last() =~= dv.take(i as int));
                assert(dv.take(i + 1).last() == dv[i as int]);
                assert(r@ =~= marks_text(dv.take(i + 1)));
            }
            i = i + 1;
        }
        proof {
            assert(self.marks.deep_view().take(self.marks@.len() as int) =~= self.marks.deep_view());
        }
        r.append(self.message.as_str());
        match &self.help {
            Some(h) => {
                push_char(&mut r, '\n');
                r.append(h.as_str());
                proof {
                    assert(r@ =~= self.spec_format());
                }
                r
            },
            None => {
                proof {
                    assert(r@ =~= self.spec_format());
                }
                r
            },
        }
    }
}

/// Whether `e` is exactly the error record built for failure value `failure`
/// under call trace `trace`: the marks are the trace snapshot, the message is
/// the failure's rendering, and no help text is attached.
pub open spec fn is_trace_error(e: BasicError, trace: Seq<Seq<char>>, failure: Value) -> bool {
    &&& e.marks.deep_view() == trace
    &&& e.message@ == render_spec(failure)
    &&& e.help is None
}

/// Clones a trace snapshot mark by mark.
pub(crate) fn clone_marks(marks: &Vec<String>) -> (r: Vec<String>)
    ensures
        r.deep_view() == marks.deep_view(),
{
    let mut r: Vec<String> = Vec::new();
    let mut i: usize = 0;
    while i < marks.len()
        invariant
            i <= marks.len(),
            r@.len() == i,
            r.deep_view() =~= marks.deep_view().take(i as int),
        decreases marks.len() - i,
    {
        let ghost r0 = r;
        r.push(marks[i].clone());
        proof {
            let dv = marks.deep_view();
            assert(r@.len() == i + 1);
            assert forall|j: int| 0 <= j < i + 1 implies r.deep_view()[j] == dv.take(i + 1)[j] by {
                assert(r.deep_view()[j] == r@[j].deep_view());
                if j < i as int {
                    assert(r@[j] == r0@[j]);
                    assert(r0.deep_view()[j] == dv.take(i as int)[j]);
                } else {
                    assert(r@[j] == marks@[i as int]);
                }
            }
            assert(r.deep_view() =~= dv.take(i + 1));
        }
        i = i + 1;
    }
    proof {
        assert(marks.deep_view().take(marks@.len() as int) =~= marks.deep_view());
    }
    r
}

/// Funnels a fallible script call through the uniform error path: a success
/// passes through unchanged; a failure becomes an error record whose message
/// is the failure's rendering and whose marks snapshot the current call
/// trace. It never attaches help text.
pub fn err_trace<T>(trace: &Vec<String>, r: Result<T, Value>) -> (res: Result<T, BasicError>)
    ensures
        r is Ok <==> res is Ok,
        r is Ok ==> res->Ok_0 == r->Ok_0,
        r matches Err(v) ==> res matches Err(e) && is_trace_error(e, trace.deep_view(), v),
{
    match r {
        Ok(t) => Ok(t),
        Err(v) => Err(
            BasicError {
                marks: clone_marks(trace),
                message: render(&v),
                help: None,
            },
        ),
    }
}

} // verus!
