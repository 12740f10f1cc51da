//! Diagnostic collection for one validation run: a path into the
//! schema tree, severity-tagged log entries, and a context that
//! accumulates them without ever aborting a traversal.

use vstd::prelude::*;
use vstd::string::StringExecFns;

verus! {

/// Declares im_rc's persistent vector so it can carry a path's
/// segments.
#[verifier::external_type_specification]
#[verifier::external_body]
#[verifier::reject_recursive_types(A)]
pub struct ExVector<A>(im_rc::Vector<A>);

/// The segments held by an im_rc vector of strings, in order.
pub uninterp spec fn vector_strings(v: im_rc::Vector<String>) -> Seq<Seq<char>>;

/// Relies on im_rc's Vector::new: the new vector is empty.
#[verifier::external_body]
fn segments_new() -> (r: im_rc::Vector<String>)
    ensures
        vector_strings(r) == Seq::<Seq<char>>::empty(),
{
    im_rc::Vector::new()
}

/// Relies on im_rc's Vector::push_back: appends one element at the
/// back and changes nothing else.
#[verifier::external_body]
fn segments_push(v: &mut im_rc::Vector<String>, s: &str)
    ensures
        vector_strings(*final(v)) == vector_strings(*old(v)).push(s@),
{
    v.push_back(s.to_owned());
}

/// Relies on im_rc's Clone impl for Vector: the clone holds the same
/// elements in the same order.
#[verifier::external_body]
fn segments_clone(v: &im_rc::Vector<String>) -> (r: im_rc::Vector<String>)
    ensures
        vector_strings(r) == vector_strings(*v),
{
    v.clone()
}

/// Relies on im_rc's Vector::len: the number of elements.
#[verifier::external_body]
fn segments_len(v: &im_rc::Vector<String>) -> (r: usize)
    ensures
        r == vector_strings(*v).len(),
{
    v.len()
}

/// Relies on im_rc's Vector::get: Some of the element at an in-bounds
/// index, so unwrapping cannot fail.
#[verifier::external_body]
fn segments_get<'a>(v: &'a im_rc::Vector<String>, i: usize) -> (r: &'a String)
    requires
        i < vector_strings(*v).len(),
    ensures
        r@ == vector_strings(*v)[i as int],
{
    v.get(i).unwrap()
}

/// How serious a log entry is; a run fails only on `Error`.
#[derive(Clone, Copy, PartialEq, Eq, Structural, Debug)]
pub enum Severity {
    Info,
    Warning,
    Error,
}

/// The display name of a severity.
pub open spec fn severity_text(s: Severity) -> Seq<char> {
    match s {
        Severity::Info => "Info"@,
        Severity::Warning => "Warning"@,
        Severity::Error => "Error"@,
    }
}

/// Path to the object a log entry is about, as an ordered sequence of
/// segments. Appending shares the unaffected prefix.
#[derive(Debug)]
pub struct Path {
    segments: im_rc::Vector<String>,
}

impl View for Path {
    type V = Seq<Seq<char>>;

    closed spec fn view(&self) -> Seq<Seq<char>> {
        vector_strings(self.segments)
    }
}

/// A path rendered as its segments joined by slashes.
pub open spec fn path_text(segs: Seq<Seq<char>>) -> Seq<char>
    decreases segs.len(),
{
    if segs.len() == 0 {
        Seq::empty()
    } else if segs.len() == 1 {
        segs[0]
    } else {
        path_text(segs.drop_last()) + seq!['/'] + segs.last()
    }
}

impl Clone for Path {
    fn clone(&self) -> (r: Self)
        ensures
            r@ == self@,
    {
        Path { segments: segments_clone(&self.segments) }
    }
}

impl Default for Path {
    fn default() -> (r: Self)
        ensures
            r@ == Seq::<Seq<char>>::empty(),
    {
        Path { segments: segments_new() }
    }
}

impl Path {
    /// A new path with `segment` appended; `self` is unchanged.
    pub fn appending(&self, segment: &str) -> (r: Path)
        ensures
            r@ == self@.push(segment@),
    {
        let mut segments = segments_clone(&self.segments);
        segments_push(&mut segments, segment);
        Path { segments }
    }

    /// The path's segments joined by slashes.
    pub fn to_string(&self) -> (r: String)
        ensures
            r@ == path_text(self@),
    {
        let n = segments_len(&self.segments);
        let mut z = String::new();
        let mut i: usize = 0;
        while i < n
            invariant
                0 <= i <= n,
                n == self@.len(),
                z@ == path_text(self@.take(i as int)),
            decreases n - i,
        {
            if i > 0 {
                z.append("/");
                proof {
                    reveal_strlit("/");
                    assert("/"@ =~= seq!['/']);
                }
            }
            let seg = segments_get(&self.segments, i);
            z.append(seg.as_str());
            proof {
                let t = self@.take(i + 1);
                assert(t.drop_last() =~= self@.take(i as int));
                assert(t.last() == self@[i as int]);
                assert(z@ =~= path_text(t));
            }
            i = i + 1;
        }
        proof {
            assert(self@.take(n as int) =~= self@);
        }
        z
    }
}

/// The spec-level value of one log entry.
pub ghost struct LogV {
    pub severity: Severity,
    pub path: Seq<Seq<char>>,
    pub message: Seq<char>,
}

/// One recorded diagnostic.
#[derive(Debug)]
pub struct Log {
    pub severity: Severity,
    pub path: Path,
    pub message: String,
}

impl View for Log {
    type V = LogV;

    open spec fn view(&self) -> LogV {
        LogV { severity: self.severity, path: self.path@, message: self.message@ }
    }
}

impl DeepView for Log {
    type V = LogV;

    open spec fn deep_view(&self) -> LogV {
        self.view()
    }
}

impl Clone for Log {
    fn clone(&self) -> (r: Self)
        ensures
            r@ == self@,
    {
        Log {
            severity: self.severity,
            path: self.path.clone(),
            message: self.message.clone(),
        }
    }
}

/// A log entry rendered as `Severity(path): message`.
pub open spec fn log_text(l: LogV) -> Seq<char> {
    severity_text(l.severity) + "("@ + path_text(l.path) + "): "@ + l.message
}

impl Log {
    /// The entry rendered as `Severity(path): message`.
    pub fn to_string(&self) -> (r: String)
        ensures
            r@ == log_text(self@),
    {
        let mut z: String = match self.severity {
            Severity::Info => String::from_str("Info"),
            Severity::Warning => String::from_str("Warning"),
            Severity::Error => String::from_str("Error"),
        };
        z.append("(");
        let p = self.path.to_string();
        z.append(p.as_str());
        z.append("): ");
        z.append(self.message.as_str());
        proof {
            assert(z@ =~= log_text(self@));
        }
        z
    }
}

/// The report for a sequence of entries: one `- entry` line each.
pub open spec fn report_text(logs: Seq<LogV>) -> Seq<char>
    decreases logs.len(),
{
    if logs.len() == 0 {
        Seq::empty()
    } else {
        report_text(logs.drop_last()) + "- "@ + log_text(logs.last()) + "\n"@
    }
}

/// The error a failed check carries: every Error-severity entry, in
/// encounter order.
#[derive(Debug)]
pub struct LintError(pub Vec<Log>);

impl LintError {
    /// The carried entries rendered as report lines.
    pub fn to_string(&self) -> (r: String)
        ensures
            r@ == report_text(self.0.deep_view()),
    {
        render_report(&self.0)
    }
}

/// Lint context. Lint functions record their findings here; entries
/// are only ever appended.
#[derive(Debug)]
pub struct Context {
    pub logs: Vec<Log>,
}

impl View for Context {
    type V = Seq<LogV>;

    open spec fn view(&self) -> Seq<LogV> {
        self.logs.deep_view()
    }
}

/// The one log entry `error` records.
pub open spec fn error_log(path: Seq<Seq<char>>, message: Seq<char>) -> LogV {
    LogV { severity: Severity::Error, path, message }
}

impl Default for Context {
    fn default() -> (r: Self)
        ensures
            r@ == Seq::<LogV>::empty(),
    {
        let r = Context { logs: Vec::new() };
        proof {
            assert(r@ =~= Seq::<LogV>::empty());
        }
        r
    }
}

impl Context {
    /// Records an error log.
    pub fn error(&mut self, path: Path, message: &'static str)
        ensures
            final(self)@ == old(self)@.push(error_log(path@, message@)),
    {
        let ghost pv = path@;
        self.logs.push(Log { severity: Severity::Error, path, message: message.to_owned() });
        proof {
            assert(self@ =~= old(self)@.push(error_log(pv, message@)));
        }
    }

    /// Checks for rejecting errors and returns them: success exactly
    /// when no entry has Error severity, otherwise every Error entry
    /// in encounter order.
    pub fn check(&self) -> (r: Result<(), LintError>)
        ensures
            r is Ok <==> (forall|i: int|
                0 <= i < self@.len() ==> self@[i].severity != Severity::Error),
            r matches Err(e) ==> e.0.deep_view() == self@.filter(
                |l: LogV| l.severity == Severity::Error,
            ),
    {
        broadcast use vstd::seq_lib::group_filter_ensures;

        let ghost pred = |l: LogV| l.severity == Severity::Error;
        let mut errs: Vec<Log> = Vec::new();
        let n = self.logs.len();
        let mut i: usize = 0;
        let ghost mut wit: int = 0;
        proof {
            assert(errs.deep_view() =~= self@.take(0).filter(pred));
        }
        while i < n
            invariant
                0 <= i <= n,
                n == self.logs.len(),
                self@.len() == n,
                errs.deep_view() == self@.take(i as int).filter(
                    |l: LogV| l.severity == Severity::Error,
                ),
                errs.deep_view().len() > 0 ==> 0 <= wit < i && self@[wit].severity
                    == Severity::Error,
            decreases n - i,
        {
            broadcast use vstd::seq_lib::group_filter_ensures;

            let ghost pre = errs.deep_view();
            if self.logs[i].severity == Severity::Error {
                errs.push(self.logs[i].clone());
                proof {
                    wit = i as int;
                }
            }
            proof {
                let p = |l: LogV| l.severity == Severity::Error;
                let a = self@.take(i as int);
                let t = self@.take(i + 1);
                assert(t =~= a + seq![self@[i as int]]);
                Seq::filter_distributes_over_add(a, seq![self@[i as int]], p);
                reveal(Seq::filter);
                assert(seq![self@[i as int]].drop_last() =~= Seq::<LogV>::empty());
                assert(Seq::<LogV>::empty().filter(p) =~= Seq::<LogV>::empty());
                if p(self@[i as int]) {
                    assert(seq![self@[i as int]].filter(p) =~= seq![self@[i as int]]);
                    assert(errs.deep_view() =~= pre.push(self@[i as int]));
                    assert(errs.deep_view() =~= t.filter(p));
                } else {
                    assert(seq![self@[i as int]].filter(p) =~= Seq::<LogV>::empty());
                    assert(errs.deep_view() =~= t.filter(p));
                }
            }
            i = i + 1;
        }
        proof {
            assert(self@.take(n as int) =~= self@);
        }
        if errs.len() == 0 {
            proof {
                let p = |l: LogV| l.severity == Severity::Error;
                assert forall|j: int|
                    0 <= j < self@.len() implies self@[j].severity != Severity::Error by {
                    if self@[j].severity == Severity::Error {
                        assert(p(self@[j]));
                        assert(self@.filter(p).contains(self@[j]));
                    }
                }
            }
            Ok(())
        } else {
            proof {
                assert(self@[wit].severity == Severity::Error);
            }
            Err(LintError(errs))
        }
    }

    /// The full report: one `- entry` line per log, in insertion
    /// order, all severities included.
    pub fn to_string(&self) -> (r: String)
        ensures
            r@ == report_text(self@),
    {
        render_report(&self.logs)
    }
}

/// Renders log entries as `- entry` lines.
fn render_report(logs: &Vec<Log>) -> (r: String)
    ensures
        r@ == report_text(logs.deep_view()),
{
    let n = logs.len();
    let mut z = String::new();
    let mut i: usize = 0;
    while i < n
        invariant
            0 <= i <= n,
            n == logs.len(),
            z@ == report_text(logs.deep_view().take(i as int)),
        decreases n - i,
    {
        z.append("- ");
        let line = logs[i].to_string();
        z.append(line.as_str());
        z.append("\n");
        proof {
            let t = logs.deep_view().take(i + 1);
            assert(t.drop_last() =~= logs.deep_view().take(i as int));
            assert(t.last() == logs.deep_view()[i as int]);
            assert(z@ =~= report_text(t));
        }
        i = i + 1;
    }
    proof {
        assert(logs.deep_view().take(n as int) =~= logs.deep_view());
    }
    z
}

/// One lintable node of the schema tree: records its findings for the
/// given path into the context, appending and never removing.
pub trait Lint {
    /// The findings this node contributes at the given path.
    spec fn lint_v(&self, path: Seq<Seq<char>>) -> Seq<LogV>;

    /// Performs lint on `self`.
    /// - `path`: path to the current linting object, used for reporting.
    /// - `context`: context to store the linting result.
    fn lint(&self, path: Path, context: &mut Context)
        ensures
            final(context)@ == old(context)@ + self.lint_v(path@),
    ;
}

} // verus!
