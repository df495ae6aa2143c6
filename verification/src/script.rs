//! Script source preparation.
//!
//! Script text arrives either as a literal expression given on the command
//! line or as the full text of a script read from a file or standard input.
//! A literal expression is wrapped verbatim into a generated entry-point
//! body declaring the two external bindings.

use vstd::prelude::*;

verus! {

/// Relies on `String::push`: appends exactly one character.
#[verifier::external_body]
fn push_char(s: &mut String, c: char)
    ensures
        final(s)@ == old(s)@.push(c),
{
    s.push(c);
}

/// A source of script text for one session.
pub enum ScriptSource {
    /// A literal expression to run inside a generated entry point.
    Expr(String),
    /// The full text of a script, as read from a file or standard input.
    Read(String),
}

/// The generated script wrapping a literal expression: the expression text
/// stands verbatim inside an entry point declaring the two external
/// bindings.
pub open spec fn expr_script(s: Seq<char>) -> Seq<char> {
    "fn main() ~ evdevs, uinput {\n"@ + s + "\n}"@
}

impl ScriptSource {
    /// The script text to load, paired with whether it came from a literal
    /// expression — the mode in which the configuration block is never
    /// parsed and every key code is enabled unconditionally.
    pub fn read(self) -> (r: (String, bool))
        ensures
            r.1 == (self is Expr),
            match self {
                ScriptSource::Expr(s) => r.0@ == expr_script(s@),
                ScriptSource::Read(t) => r.0@ == t@,
            },
    {
        match self {
            ScriptSource::Expr(s) => {
                let mut out = String::from_str("fn main() ~ evdevs, uinput {\n");
                out.append(s.as_str());
                out.append("\n}");
                (out, true)
            },
            ScriptSource::Read(t) => (t, false),
        }
    }
}

/// Index of the first line end in `s`, or `s.len()` when none remains.
pub open spec fn line_break(s: Seq<char>) -> int
    decreases s.len(),
{
    if s.len() == 0 {
        0
    } else if s[0] == '\n' {
        0
    } else {
        1 + line_break(s.drop_first())
    }
}

/// `line_break` is a position in `s`, everything before it is ordinary text,
/// and it lands on a line end whenever one exists.
pub proof fn lemma_line_break(s: Seq<char>)
    ensures
        0 <= line_break(s) <= s.len(),
        forall|k: int| 0 <= k < line_break(s) ==> s[k] != '\n',
        line_break(s) < s.len() ==> s[line_break(s)] == '\n',
    decreases s.len(),
{
    if s.len() == 0 {
    } else if s[0] == '\n' {
    } else {
        lemma_line_break(s.drop_first());
        assert forall|k: int| 0 <= k < line_break(s) implies s[k] != '\n' by {
            if k > 0 {
                assert(s.drop_first()[k - 1] == s[k]);
            }
        }
        if line_break(s) < s.len() {
            assert(s.drop_first()[line_break(s) - 1] == s[line_break(s)]);
        }
    }
}

/// A position that is preceded only by ordinary text and lands on a line end
/// (or the end of `s`) is exactly `line_break`.
pub proof fn lemma_line_break_unique(s: Seq<char>, j: int)
    requires
        0 <= j <= s.len(),
        forall|k: int| 0 <= k < j ==> s[k] != '\n',
        j < s.len() ==> s[j] == '\n',
    ensures
        line_break(s) == j,
{
    lemma_line_break(s);
    if line_break(s) < j {
        assert(s[line_break(s)] != '\n');
    } else if j < line_break(s) {
        assert(s[j] != '\n');
    }
}

/// The first line of `s`: everything up to the first line end, with a
/// trailing carriage return dropped.
pub open spec fn first_line(s: Seq<char>) -> Seq<char> {
    let l = s.take(line_break(s));
    if l.len() > 0 && l.last() == '\r' {
        l.drop_last()
    } else {
        l
    }
}

/// What remains of `s` after its first line and the line end closing it.
pub open spec fn after_line(s: Seq<char>) -> Seq<char> {
    if line_break(s) < s.len() {
        s.skip(line_break(s) + 1)
    } else {
        Seq::empty()
    }
}

/// Whether a line opens with the configuration marker.
pub open spec fn starts_with_marker(l: Seq<char>) -> bool {
    l.len() >= 3 && l[0] == '/' && l[1] == '/' && l[2] == '!'
}

/// `l` with every repetition of the leading configuration marker removed.
pub open spec fn strip_markers(l: Seq<char>) -> Seq<char>
    decreases l.len(),
{
    if starts_with_marker(l) {
        strip_markers(l.skip(3))
    } else {
        l
    }
}

/// The structured configuration document embedded in a script: the leading
/// run of marker-prefixed lines, each with its markers stripped and closed
/// by a line end.  The run stops at the first line without the marker; an
/// absent block yields the empty document.
pub open spec fn spec_config_block(s: Seq<char>) -> Seq<char>
    decreases s.len(),
    via spec_config_block_decreases
{
    if s.len() == 0 {
        Seq::empty()
    } else if starts_with_marker(first_line(s)) {
        strip_markers(first_line(s)) + seq!['\n'] + spec_config_block(after_line(s))
    } else {
        Seq::empty()
    }
}

#[via_fn]
proof fn spec_config_block_decreases(s: Seq<char>) {
    lemma_line_break(s);
}

/// Whether `line` opens with the configuration marker.
fn is_marker_line(line: &str) -> (r: bool)
    ensures
        r == starts_with_marker(line@),
{
    let n = line.unicode_len();
    n >= 3 && line.get_char(0) == '/' && line.get_char(1) == '/' && line.get_char(2) == '!'
}

/// Remove every repetition of the leading configuration marker from `line`.
fn strip_marker_prefix(line: &str) -> (r: String)
    ensures
        r@ == strip_markers(line@),
{
    let n = line.unicode_len();
    let mut k: usize = 0;
    proof {
        assert(line@.skip(0) == line@);
    }
    loop
        invariant_except_break
            n == line@.len(),
            k <= n,
            strip_markers(line@) == strip_markers(line@.skip(k as int)),
        ensures
            k <= n == line@.len(),
            strip_markers(line@) == line@.skip(k as int),
        decreases n - k,
    {
        let is_marker = n - k >= 3 && line.get_char(k) == '/' && line.get_char(k + 1) == '/'
            && line.get_char(k + 2) == '!';
        proof {
            assert(starts_with_marker(line@.skip(k as int)) == (k + 3 <= n && line@[k as int]
                == '/' && line@[k as int + 1] == '/' && line@[k as int + 2] == '!'));
        }
        if !is_marker {
            break ;
        }
        proof {
            assert(line@.skip(k as int).skip(3) =~= line@.skip(k as int + 3));
        }
        k = k + 3;
    }
    String::from_str(line.substring_char(k, n))
}

/// Extract the embedded configuration document from `script`: the leading
/// marker-prefixed lines, markers stripped, each closed by a line end.
pub fn extract_config_block(script: &str) -> (r: String)
    ensures
        r@ == spec_config_block(script@),
{
    let n = script.unicode_len();
    let mut out = String::new();
    let mut pos: usize = 0;
    proof {
        assert(script@.skip(0) == script@);
    }
    loop
        invariant_except_break
            n == script@.len(),
            pos <= n,
            spec_config_block(script@) == out@ + spec_config_block(script@.skip(pos as int)),
        ensures
            out@ == spec_config_block(script@),
        decreases n - pos,
    {
        if pos >= n {
            proof {
                assert(script@.skip(pos as int) =~= Seq::<char>::empty());
            }
            break ;
        }
        let ghost rem = script@.skip(pos as int);
        // Find the end of the current line.
        let mut j: usize = pos;
        while j < n && script.get_char(j) != '\n'
            invariant
                n == script@.len(),
                pos <= j <= n,
                forall|k: int| pos <= k < j ==> script@[k] != '\n',
            decreases n - j,
        {
            j = j + 1;
        }
        proof {
            assert forall|m: int| 0 <= m < j - pos implies rem[m] != '\n' by {
                assert(rem[m] == script@[pos + m]);
            }
            if j < n {
                assert(rem[j - pos] == script@[j as int]);
            }
            lemma_line_break_unique(rem, j - pos);
        }
        // Drop a trailing carriage return from the line.
        let e = if j > pos && script.get_char(j - 1) == '\r' {
            j - 1
        } else {
            j
        };
        proof {
            assert(rem.take(j - pos) =~= script@.subrange(pos as int, j as int));
            if j > pos && script@[j - 1] == '\r' {
                assert(first_line(rem) =~= script@.subrange(pos as int, j - 1));
            } else {
                assert(first_line(rem) =~= script@.subrange(pos as int, j as int));
            }
        }
        let line = script.substring_char(pos, e);
        if !is_marker_line(line) {
            break ;
        }
        let stripped = strip_marker_prefix(line);
        let ghost prev = out@;
        out.append(stripped.as_str());
        push_char(&mut out, '\n');
        let next = if j < n {
            j + 1
        } else {
            n
        };
        proof {
            if j < n {
                assert(after_line(rem) =~= script@.skip(j + 1));
            } else {
                assert(after_line(rem) =~= script@.skip(n as int));
            }
            assert(out@ =~= prev + strip_markers(first_line(rem)) + seq!['\n']);
            assert(out@ + spec_config_block(script@.skip(next as int)) =~= prev + (strip_markers(
                first_line(rem),
            ) + seq!['\n'] + spec_config_block(after_line(rem))));
        }
        pos = next;
    }
    out
}

/// Where the session's script text comes from.
#[derive(Debug, PartialEq, Eq)]
pub enum SourceChoice {
    /// A literal expression given on the command line.
    Expr(String),
    /// A named script file.
    File(String),
    /// Standard input.
    Stdin,
}

/// Pick the script source from the command line: a literal expression
/// overrides the file if present; a file named `-`, or no file at all,
/// means standard input.
pub fn choose_script_source(expr: Option<String>, file: Option<String>) -> (r: SourceChoice)
    ensures
        match (expr, file) {
            (Some(e), _) => r == SourceChoice::Expr(e),
            (None, Some(f)) => if f@ =~= seq!['-'] {
                r is Stdin
            } else {
                r == SourceChoice::File(f)
            },
            (None, None) => r is Stdin,
        },
{
    match expr {
        Some(e) => SourceChoice::Expr(e),
        None => match file {
            Some(f) => {
                if f.as_str().unicode_len() == 1 && f.as_str().get_char(0) == '-' {
                    proof {
                        assert(f@ =~= seq!['-']);
                    }
                    SourceChoice::Stdin
                } else {
                    proof {
                        assert(!(f@ =~= seq!['-']));
                    }
                    SourceChoice::File(f)
                }
            },
            None => SourceChoice::Stdin,
        },
    }
}

} // verus!
