//! Per-language pipeline plans: how a submitted snippet is turned into
//! scratch artifacts, an optional compile command and a run command, and
//! which artifacts must be removed when the run ends.

use vstd::prelude::*;
use vstd::string::StrSliceExecFns;
use vstd::string::StringExecFns;
use crate::text::{alnum_char, whitespace_char, is_alnum_char, is_whitespace_char};

verus! {

/// A character that may stand in a derived type name: a Unicode letter or
/// digit, or an underscore.
pub open spec fn ident_char(c: char) -> bool {
    alnum_char(c) || c == '_'
}

/// The longest prefix of `s` made of identifier characters.
pub open spec fn ident_run(s: Seq<char>) -> Seq<char>
    decreases s.len(),
{
    if s.len() > 0 && ident_char(s[0]) {
        seq![s[0]] + ident_run(s.drop_first())
    } else {
        Seq::empty()
    }
}

/// `s` without its leading whitespace.
pub open spec fn trim_start(s: Seq<char>) -> Seq<char>
    decreases s.len(),
{
    if s.len() > 0 && whitespace_char(s[0]) {
        trim_start(s.drop_first())
    } else {
        s
    }
}

/// `s` without its trailing whitespace.
pub open spec fn trim_end(s: Seq<char>) -> Seq<char>
    decreases s.len(),
{
    if s.len() > 0 && whitespace_char(s.last()) {
        trim_end(s.drop_last())
    } else {
        s
    }
}

/// `s` without leading or trailing whitespace.
pub open spec fn trimmed(s: Seq<char>) -> Seq<char> {
    trim_end(trim_start(s))
}

/// The fixed class-declaration marker scanned for in submitted sources.
pub open spec fn class_marker() -> Seq<char> {
    "public class "@
}

/// The type name a single source line declares: after trimming, the line must
/// begin with the class-declaration marker, and the name is the nonempty run
/// of identifier characters immediately following it.
pub open spec fn line_class_name(line: Seq<char>) -> Option<Seq<char>> {
    let t = trimmed(line);
    if t.len() >= class_marker().len() && t.subrange(0, class_marker().len() as int)
        == class_marker() {
        let name = ident_run(t.skip(class_marker().len() as int));
        if name.len() > 0 {
            Some(name)
        } else {
            None
        }
    } else {
        None
    }
}

/// `s` split at every newline. The split keeps empty pieces, so the result
/// always has at least one element.
pub open spec fn lines_of(s: Seq<char>) -> Seq<Seq<char>>
    decreases s.len(),
{
    if s.len() == 0 {
        seq![Seq::<char>::empty()]
    } else {
        let rest = lines_of(s.drop_first());
        if s[0] == '\n' {
            seq![Seq::<char>::empty()] + rest
        } else {
            seq![seq![s[0]] + rest[0]] + rest.skip(1)
        }
    }
}

/// The name declared by the first line that declares one.
pub open spec fn first_class_name(lines: Seq<Seq<char>>) -> Option<Seq<char>>
    decreases lines.len(),
{
    if lines.len() == 0 {
        None
    } else {
        match line_class_name(lines[0]) {
            Some(n) => Some(n),
            None => first_class_name(lines.drop_first()),
        }
    }
}

/// The type name the whole source declares, if any line declares one.
pub open spec fn class_name_of(s: Seq<char>) -> Option<Seq<char>> {
    first_class_name(lines_of(s))
}

proof fn lemma_lines_nonempty(s: Seq<char>)
    ensures
        lines_of(s).len() >= 1,
    decreases s.len(),
{
    if s.len() > 0 {
        lemma_lines_nonempty(s.drop_first());
    }
}

/// Splitting at the first newline: if no character before `e` is a newline
/// and `e` is either a newline or the end, the line decomposition starts with
/// `s[..e]` and continues with the lines of `s[e+1..]`.
proof fn lemma_lines_split(s: Seq<char>, e: int)
    requires
        0 <= e <= s.len(),
        forall|k: int| 0 <= k < e ==> s[k] != '\n',
        e < s.len() ==> s[e] == '\n',
    ensures
        e == s.len() ==> lines_of(s) =~~= seq![s],
        e < s.len() ==> lines_of(s) =~~= seq![s.subrange(0, e)] + lines_of(
            s.subrange(e + 1, s.len() as int),
        ),
    decreases s.len(),
{
    lemma_lines_nonempty(s);
    if s.len() == 0 {
        assert(lines_of(s) =~~= seq![s]);
    } else if e == 0 {
        if e < s.len() {
            assert(s.subrange(1, s.len() as int) =~= s.drop_first());
        }
    } else {
        let tail = s.drop_first();
        lemma_lines_nonempty(tail);
        lemma_lines_split(tail, e - 1);
        let rest = lines_of(tail);
        if e == s.len() {
            assert(rest =~~= seq![tail]);
            assert(seq![s[0]] + rest[0] =~= s);
            assert(lines_of(s) =~~= seq![s]);
        } else {
            assert(tail.subrange(0, e - 1) =~= s.subrange(0, e).drop_first());
            assert(tail.subrange(e, tail.len() as int) =~= s.subrange(e + 1, s.len() as int));
            assert(rest =~~= seq![tail.subrange(0, e - 1)] + lines_of(
                tail.subrange(e, tail.len() as int),
            ));
            assert(seq![s[0]] + rest[0] =~= s.subrange(0, e));
            assert(rest.skip(1) =~~= lines_of(s.subrange(e + 1, s.len() as int)));
        }
    }
}

/// The leading-whitespace trim keeps exactly the characters from the first
/// non-whitespace position on.
proof fn lemma_trim_start_skip(s: Seq<char>, i: int)
    requires
        0 <= i <= s.len(),
        forall|k: int| 0 <= k < i ==> whitespace_char(s[k]),
        i < s.len() ==> !whitespace_char(s[i]),
    ensures
        trim_start(s) =~= s.skip(i),
    decreases s.len(),
{
    if i == 0 {
        if s.len() > 0 && whitespace_char(s[0]) {
        } else {
            assert(s.skip(0) =~= s);
        }
    } else {
        lemma_trim_start_skip(s.drop_first(), i - 1);
        assert(s.drop_first().skip(i - 1) =~= s.skip(i));
    }
}

/// The trailing-whitespace trim keeps exactly the characters before the last
/// non-whitespace position.
proof fn lemma_trim_end_take(s: Seq<char>, j: int)
    requires
        0 <= j <= s.len(),
        forall|k: int| j <= k < s.len() ==> whitespace_char(s[k]),
        j > 0 ==> !whitespace_char(s[j - 1]),
    ensures
        trim_end(s) =~= s.take(j),
    decreases s.len(),
{
    if j == s.len() {
        if s.len() > 0 && whitespace_char(s.last()) {
            assert(!whitespace_char(s[j - 1]));
            assert(false);
        } else {
            assert(s.take(j) =~= s);
        }
    } else {
        lemma_trim_end_take(s.drop_last(), j);
        assert(s.drop_last().take(j) =~= s.take(j));
    }
}

/// The identifier run is exactly the prefix up to the first character that is
/// not an identifier character.
proof fn lemma_ident_run_prefix(s: Seq<char>, m: int)
    requires
        0 <= m <= s.len(),
        forall|k: int| 0 <= k < m ==> ident_char(s[k]),
        m < s.len() ==> !ident_char(s[m]),
    ensures
        ident_run(s) =~= s.take(m),
    decreases s.len(),
{
    if m == 0 {
        assert(s.take(0) =~= Seq::<char>::empty());
    } else {
        lemma_ident_run_prefix(s.drop_first(), m - 1);
        assert(seq![s[0]] + s.drop_first().take(m - 1) =~= s.take(m));
    }
}

/// The name declared by the line `code[start..lend)`, if it declares one.
fn scan_line_class_name(code: &str, start: usize, lend: usize) -> (r: Option<String>)
    requires
        start <= lend <= code@.len(),
    ensures
        match r {
            Some(name) => line_class_name(code@.subrange(start as int, lend as int)) == Some(
                name@,
            ),
            None => line_class_name(code@.subrange(start as int, lend as int)) is None,
        },
{
    let ghost line = code@.subrange(start as int, lend as int);
    // Trim: find the first and last non-whitespace positions in the line.
    let mut ts: usize = start;
    while ts < lend && is_whitespace_char(code.get_char(ts))
        invariant
            start <= ts <= lend <= code@.len(),
            forall|k: int| start <= k < ts ==> whitespace_char(code@[k]),
        decreases lend - ts,
    {
        ts += 1;
    }
    let mut te: usize = lend;
    while te > ts && is_whitespace_char(code.get_char(te - 1))
        invariant
            start <= ts <= te <= lend <= code@.len(),
            forall|k: int| te <= k < lend ==> whitespace_char(code@[k]),
            ts < lend ==> !whitespace_char(code@[ts as int]),
        decreases te,
    {
        te -= 1;
    }
    proof {
        lemma_trim_start_skip(line, ts - start);
        lemma_trim_end_take(line.skip(ts - start), te - ts);
        assert(trimmed(line) =~= code@.subrange(ts as int, te as int));
    }
    // The trimmed line must begin with the class-declaration marker.
    let marker: &str = "public class ";
    let mlen = marker.unicode_len();
    proof {
        reveal_strlit("public class ");
    }
    if te - ts < mlen {
        return None;
    }
    let mut k: usize = 0;
    while k < mlen
        invariant
            mlen == class_marker().len(),
            start <= ts <= te <= code@.len(),
            te - ts >= mlen,
            marker@ == class_marker(),
            line == code@.subrange(start as int, lend as int),
            trimmed(line) == code@.subrange(ts as int, te as int),
            forall|t: int| 0 <= t < k ==> code@[ts + t] == class_marker()[t],
        decreases mlen - k,
    {
        if code.get_char(ts + k) != marker.get_char(k) {
            proof {
                let t = trimmed(line);
                assert(t[k as int] == code@[ts + k]);
                assert(t.subrange(0, class_marker().len() as int)[k as int] == t[k as int]);
            }
            return None;
        }
        k += 1;
    }
    proof {
        let t = trimmed(line);
        assert(t.subrange(0, class_marker().len() as int) =~= class_marker());
    }
    // Take the run of identifier characters after the marker.
    let nstart = ts + mlen;
    let mut p: usize = nstart;
    while p < te && is_alnum_or_underscore(code.get_char(p))
        invariant
            nstart <= p <= te <= code@.len(),
            forall|k2: int| nstart <= k2 < p ==> ident_char(code@[k2]),
        decreases te - p,
    {
        p += 1;
    }
    proof {
        let t = trimmed(line);
        let u = t.skip(class_marker().len() as int);
        assert(u =~= code@.subrange(nstart as int, te as int));
        lemma_ident_run_prefix(u, p - nstart);
        assert(u.take(p - nstart) =~= code@.subrange(nstart as int, p as int));
    }
    if p == nstart {
        return None;
    }
    let name = code.substring_char(nstart, p);
    Some(String::from_str(name))
}

/// The window-label prefix removed from a session key when scratch names are
/// derived from it.
pub open spec fn session_marker() -> Seq<char> {
    "editor-"@
}

/// The session key with every occurrence of the window-label prefix (seven
/// characters) removed, scanning left to right.
pub open spec fn stripped(s: Seq<char>) -> Seq<char>
    decreases s.len(),
{
    if s.len() == 0 {
        s
    } else if s.len() >= 7 && s.subrange(0, 7) == session_marker() {
        stripped(s.skip(7))
    } else {
        seq![s[0]] + stripped(s.drop_first())
    }
}

/// Whether the window-label prefix stands at position `i` of `s`.
fn marker_matches_at(s: &str, i: usize, len: usize) -> (r: bool)
    requires
        len == s@.len(),
        i < len,
        len - i >= 7,
    ensures
        r == (s@.subrange(i as int, i + 7) == session_marker()),
{
    let marker: &str = "editor-";
    proof {
        reveal_strlit("editor-");
    }
    let mut k: usize = 0;
    while k < 7
        invariant
            len == s@.len(),
            i + 7 <= len,
            k <= 7,
            marker@ == session_marker(),
            session_marker().len() == 7,
            forall|t: int| 0 <= t < k ==> s@[i + t] == session_marker()[t],
        decreases 7 - k,
    {
        if s.get_char(i + k) != marker.get_char(k) {
            proof {
                assert(s@.subrange(i as int, i + 7)[k as int] == s@[i + k]);
            }
            return false;
        }
        k += 1;
    }
    proof {
        assert(s@.subrange(i as int, i + 7) =~= session_marker());
    }
    true
}

/// The session key with every occurrence of the window-label prefix removed;
/// scratch file names are derived from the result.
pub fn strip_session_marker(s: &str) -> (r: String)
    ensures
        r@ == stripped(s@),
{
    let len = s.unicode_len();
    let mut out = String::new();
    let mut i: usize = 0;
    proof {
        assert(s@.skip(0) =~= s@);
        assert(out@ + stripped(s@) =~= stripped(s@));
    }
    while i < len
        invariant
            i <= len,
            len == s@.len(),
            stripped(s@) == out@ + stripped(s@.skip(i as int)),
        decreases len - i,
    {
        let ghost rest = s@.skip(i as int);
        if len - i >= 7 && marker_matches_at(s, i, len) {
            proof {
                assert(rest.subrange(0, 7) =~= s@.subrange(i as int, i + 7));
                assert(rest.skip(7) =~= s@.skip(i + 7));
                assert(out@ + stripped(s@.skip(i + 7)) == stripped(s@));
            }
            i += 7;
        } else {
            let piece = s.substring_char(i, i + 1);
            out.append(piece);
            proof {
                if len - i >= 7 {
                    assert(rest.subrange(0, 7) =~= s@.subrange(i as int, i + 7));
                }
                assert(rest.drop_first() =~= s@.skip(i + 1));
                assert(rest[0] == s@[i as int]);
                assert(stripped(rest) == seq![s@[i as int]] + stripped(s@.skip(i + 1)));
                assert(piece@ =~= seq![s@[i as int]]);
                assert(out@ + piece@ + stripped(s@.skip(i + 1)) =~= out@ + stripped(rest));
            }
            i += 1;
        }
    }
    proof {
        assert(s@.skip(len as int) =~= Seq::<char>::empty());
        assert(stripped(Seq::<char>::empty()) =~= Seq::<char>::empty());
        assert(out@ + Seq::<char>::empty() =~= out@);
    }
    out
}

/// Whether the character may stand in a derived type name.
fn is_alnum_or_underscore(c: char) -> (r: bool)
    ensures
        r == ident_char(c),
{
    is_alnum_char(c) || c == '_'
}

/// Derives the primary type name from a submitted source: the first line
/// that, after trimming, begins with the class-declaration marker yields the
/// run of identifier characters following it; with no such line the result is
/// `None` and the caller falls back to the fixed default name.
pub fn extract_java_class_name(code: &str) -> (r: Option<String>)
    ensures
        match r {
            Some(name) => class_name_of(code@) == Some(name@),
            None => class_name_of(code@) is None,
        },
{
    let len = code.unicode_len();
    let mut start: usize = 0;
    proof {
        assert(code@.subrange(0, len as int) =~= code@);
    }
    loop
        invariant
            start <= len,
            len == code@.len(),
            class_name_of(code@) == first_class_name(
                lines_of(code@.subrange(start as int, len as int)),
            ),
        decreases len - start,
    {
        // Find the end of the current line.
        let mut e: usize = start;
        while e < len && code.get_char(e) != '\n'
            invariant
                start <= e <= len,
                len == code@.len(),
                forall|k: int| start <= k < e ==> code@[k] != '\n',
            decreases len - e,
        {
            e += 1;
        }
        let ghost tail = code@.subrange(start as int, len as int);
        proof {
            lemma_lines_split(tail, e - start);
            assert(tail.subrange(0, e - start) =~= code@.subrange(start as int, e as int));
            if e < len {
                assert(tail.subrange(e - start + 1, tail.len() as int) =~= code@.subrange(
                    e + 1,
                    len as int,
                ));
            }
        }
        let found = scan_line_class_name(code, start, e);
        match found {
            Some(name) => {
                proof {
                    if e < len {
                        let rest = lines_of(code@.subrange(e + 1, len as int));
                        assert((seq![code@.subrange(start as int, e as int)]
                            + rest).drop_first() =~~= rest);
                    }
                }
                return Some(name);
            },
            None => {
                if e == len {
                    proof {
                        assert(code@.subrange(start as int, e as int) == tail);
                        assert(lines_of(tail) == seq![tail]);
                        assert(seq![tail].drop_first() =~~= Seq::<Seq<char>>::empty());
                        assert(first_class_name(Seq::<Seq<char>>::empty()) is None);
                        assert(first_class_name(seq![tail]) is None);
                    }
                    return None;
                }
                proof {
                    let rest = lines_of(code@.subrange(e + 1, len as int));
                    assert((seq![code@.subrange(start as int, e as int)] + rest).drop_first()
                        =~~= rest);
                }
                start = e + 1;
            },
        }
    }
}

/// The languages the supervisor can run.
#[derive(Clone, Copy, Debug, PartialEq, Eq, Structural)]
pub enum Language {
    Python,
    Node,
    Rust,
    Java,
    Typescript,
}

/// One external command: a fixed program, its arguments, and the working
/// directory to run it in, if any.
pub struct CommandSpec {
    pub program: String,
    pub args: Vec<String>,
    pub cwd: Option<String>,
}

/// A scratch filesystem object created for one run and removed when the run
/// ends: a single file, or a directory removed recursively.
pub enum Artifact {
    File(String),
    Dir(String),
}

/// The complete recipe for one run: where the submitted code is written,
/// whether and how it is compiled, how it is run, and which scratch objects
/// the run owns.
pub struct RunPlan {
    pub language: Language,
    /// A per-session scratch directory created before the source is written;
    /// its recursive removal is the whole cleanup.
    pub scratch_dir: Option<String>,
    /// Where the submitted code is written.
    pub source_path: String,
    /// The compile step, for compiled languages.
    pub compile: Option<CommandSpec>,
    /// The run step, started only when any compile step succeeded.
    pub run: CommandSpec,
    /// An artifact produced by a successful compile step (the output binary),
    /// owned by the run from that point on.
    pub compiled_artifact: Option<String>,
}

impl RunPlan {
    /// The scratch object that exists once the source is written: the whole
    /// scratch directory where one is used, else the source file itself.
    pub open spec fn initial_artifact(&self) -> Artifact {
        match self.scratch_dir {
            Some(d) => Artifact::Dir(d),
            None => Artifact::File(self.source_path),
        }
    }
}

/// The derived primary type name of a submitted source: the declared name,
/// or the fixed default when no line declares one.
pub open spec fn java_class(code: Seq<char>) -> Seq<char> {
    match class_name_of(code) {
        Some(n) => n,
        None => "Main"@,
    }
}

/// The per-session scratch directory of the plan, present only for the
/// directory-based pipeline.
pub open spec fn plan_scratch_dir(lang: Language, id: Seq<char>, temp: Seq<char>) -> Option<
    Seq<char>,
> {
    match lang {
        Language::Java => Some(temp + "/codecell_java_"@ + id),
        _ => None,
    }
}

/// Where the plan writes the submitted code, named deterministically from the
/// session key (and, for the directory-based pipeline, from the derived type
/// name).
pub open spec fn plan_source_path(
    lang: Language,
    code: Seq<char>,
    id: Seq<char>,
    temp: Seq<char>,
) -> Seq<char> {
    match lang {
        Language::Python => temp + "/codecell_"@ + id + ".py"@,
        Language::Node => temp + "/codecell_"@ + id + ".js"@,
        Language::Typescript => temp + "/codecell_"@ + id + ".ts"@,
        Language::Rust => temp + "/codecell_"@ + id + ".rs"@,
        Language::Java => temp + "/codecell_java_"@ + id + "/"@ + java_class(code) + ".java"@,
    }
}

/// The output binary of the single-binary compiled pipeline.
pub open spec fn rust_binary_path(id: Seq<char>, temp: Seq<char>) -> Seq<char> {
    temp + "/codecell_"@ + id + "_bin"@
}

fn concat2(a: &str, b: &str) -> (r: String)
    ensures
        r@ == a@ + b@,
{
    let mut s = String::from_str(a);
    s.append(b);
    s
}

fn concat3(a: &str, b: &str, c: &str) -> (r: String)
    ensures
        r@ == a@ + b@ + c@,
{
    let mut s = String::from_str(a);
    s.append(b);
    s.append(c);
    s
}

/// Builds the run plan for one submission: scratch paths derived from the
/// stripped session key, the per-language compile and run command lines, and
/// the artifact layout that cleanup will remove.
pub fn plan_run(lang: Language, code: &str, window_id: &str, temp_root: &str) -> (r: RunPlan)
    ensures
        r.language == lang,
        r.source_path@ == plan_source_path(lang, code@, stripped(window_id@), temp_root@),
        match r.scratch_dir {
            Some(d) => plan_scratch_dir(lang, stripped(window_id@), temp_root@) == Some(d@),
            None => plan_scratch_dir(lang, stripped(window_id@), temp_root@) is None,
        },
        match lang {
            Language::Python | Language::Node => {
                &&& r.compile is None
                &&& r.compiled_artifact is None
                &&& r.run.program@ == (if lang is Python { "python3"@ } else { "node"@ })
                &&& r.run.args@.len() == 1
                &&& r.run.args@[0]@ == r.source_path@
                &&& r.run.cwd is None
            },
            Language::Typescript => {
                &&& r.compile is None
                &&& r.compiled_artifact is None
                &&& r.run.program@ == "npx"@
                &&& r.run.args@.len() == 2
                &&& r.run.args@[0]@ == "tsx"@
                &&& r.run.args@[1]@ == r.source_path@
                &&& r.run.cwd is None
            },
            Language::Rust => {
                &&& r.compile matches Some(c) && {
                    &&& c.program@ == "rustc"@
                    &&& c.args@.len() == 3
                    &&& c.args@[0]@ == r.source_path@
                    &&& c.args@[1]@ == "-o"@
                    &&& c.args@[2]@ == rust_binary_path(stripped(window_id@), temp_root@)
                    &&& c.cwd is None
                }
                &&& r.compiled_artifact matches Some(b) && b@ == rust_binary_path(
                    stripped(window_id@),
                    temp_root@,
                )
                &&& r.run.program@ == rust_binary_path(stripped(window_id@), temp_root@)
                &&& r.run.args@.len() == 0
                &&& r.run.cwd is None
            },
            Language::Java => {
                &&& r.compile matches Some(c) && {
                    &&& c.program@ == "javac"@
                    &&& c.args@.len() == 1
                    &&& c.args@[0]@ == r.source_path@
                    &&& c.cwd matches Some(d) && Some(d@) == plan_scratch_dir(
                        lang,
                        stripped(window_id@),
                        temp_root@,
                    )
                }
                &&& r.compiled_artifact is None
                &&& r.run.program@ == "java"@
                &&& r.run.args@.len() == 1
                &&& r.run.args@[0]@ == java_class(code@)
                &&& r.run.cwd matches Some(d) && Some(d@) == plan_scratch_dir(
                    lang,
                    stripped(window_id@),
                    temp_root@,
                )
            },
        },
{
    let id = strip_session_marker(window_id);
    match lang {
        Language::Python => plan_interpreted(lang, &id, temp_root),
        Language::Node => plan_interpreted(lang, &id, temp_root),
        Language::Typescript => plan_interpreted(lang, &id, temp_root),
        Language::Rust => {
            let stem = concat2("/codecell_", id.as_str());
            let source_path = concat3(temp_root, stem.as_str(), ".rs");
            let binary_path = concat3(temp_root, stem.as_str(), "_bin");
            let mut cargs: Vec<String> = Vec::new();
            cargs.push(source_path.clone());
            cargs.push(String::from_str("-o"));
            cargs.push(binary_path.clone());
            let compile = CommandSpec {
                program: String::from_str("rustc"),
                args: cargs,
                cwd: None,
            };
            let run = CommandSpec { program: binary_path.clone(), args: Vec::new(), cwd: None };
            proof {
                assert(source_path@ =~= plan_source_path(lang, code@, id@, temp_root@));
                assert(binary_path@ =~= rust_binary_path(id@, temp_root@));
            }
            RunPlan {
                language: lang,
                scratch_dir: None,
                source_path,
                compile: Some(compile),
                run,
                compiled_artifact: Some(binary_path),
            }
        },
        Language::Java => {
            let name_opt = extract_java_class_name(code);
            let class_name = match name_opt {
                Some(n) => n,
                None => String::from_str("Main"),
            };
            let dir = concat3(temp_root, "/codecell_java_", id.as_str());
            let mut file_name = class_name.clone();
            file_name.append(".java");
            let source_path = concat3(dir.as_str(), "/", file_name.as_str());
            let mut cargs: Vec<String> = Vec::new();
            cargs.push(source_path.clone());
            let compile = CommandSpec {
                program: String::from_str("javac"),
                args: cargs,
                cwd: Some(dir.clone()),
            };
            let mut rargs: Vec<String> = Vec::new();
            rargs.push(class_name);
            let run = CommandSpec {
                program: String::from_str("java"),
                args: rargs,
                cwd: Some(dir.clone()),
            };
            proof {
                assert(dir@ =~= temp_root@ + "/codecell_java_"@ + id@);
                assert(source_path@ =~= plan_source_path(lang, code@, id@, temp_root@));
            }
            RunPlan {
                language: lang,
                scratch_dir: Some(dir),
                source_path,
                compile: Some(compile),
                run,
                compiled_artifact: None,
            }
        },
    }
}

/// Builds the single-file plan of an interpreted pipeline: one scratch file,
/// no compile step, the interpreter invoked on the file.
fn plan_interpreted(lang: Language, id: &String, temp_root: &str) -> (r: RunPlan)
    requires
        lang is Python || lang is Node || lang is Typescript,
    ensures
        r.language == lang,
        r.scratch_dir is None,
        r.compile is None,
        r.compiled_artifact is None,
        r.source_path@ == temp_root@ + "/codecell_"@ + id@ + (match lang {
            Language::Python => ".py"@,
            Language::Node => ".js"@,
            _ => ".ts"@,
        }),
        r.run.cwd is None,
        lang is Python ==> r.run.program@ == "python3"@ && r.run.args@.len() == 1
            && r.run.args@[0]@ == r.source_path@,
        lang is Node ==> r.run.program@ == "node"@ && r.run.args@.len() == 1 && r.run.args@[0]@
            == r.source_path@,
        lang is Typescript ==> r.run.program@ == "npx"@ && r.run.args@.len() == 2
            && r.run.args@[0]@ == "tsx"@ && r.run.args@[1]@ == r.source_path@,
{
    let stem = concat2("/codecell_", id.as_str());
    let ext: &str = match lang {
        Language::Python => ".py",
        Language::Node => ".js",
        _ => ".ts",
    };
    let source_path = concat3(temp_root, stem.as_str(), ext);
    let program = match lang {
        Language::Python => String::from_str("python3"),
        Language::Node => String::from_str("node"),
        _ => String::from_str("npx"),
    };
    let mut args: Vec<String> = Vec::new();
    if matches!(lang, Language::Typescript) {
        args.push(String::from_str("tsx"));
    }
    args.push(source_path.clone());
    proof {
        assert(source_path@ =~= temp_root@ + "/codecell_"@ + id@ + ext@);
    }
    RunPlan {
        language: lang,
        scratch_dir: None,
        source_path,
        compile: None,
        run: CommandSpec { program, args, cwd: None },
        compiled_artifact: None,
    }
}

} // verus!
