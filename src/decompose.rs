use vstd::prelude::*;
use vstd::string::*;

verus! {

/// The characters that Rust's `char::is_whitespace` accepts: those with the
/// Unicode `White_Space` property.
pub open spec fn is_space(c: char) -> bool {
    let u = c as u32;
    (0x09 <= u && u <= 0x0D) || u == 0x20 || u == 0x85 || u == 0xA0 || u == 0x1680 || (0x2000
        <= u && u <= 0x200A) || u == 0x2028 || u == 0x2029 || u == 0x202F || u == 0x205F || u
        == 0x3000
}

/// Scans `s` from the left: the words completed so far, and the word still open.
pub open spec fn scan(s: Seq<char>) -> (Seq<Seq<char>>, Seq<char>)
    decreases s.len(),
{
    if s.len() == 0 {
        (Seq::empty(), Seq::empty())
    } else {
        let (done, open) = scan(s.drop_last());
        let c = s.last();
        if is_space(c) {
            if open.len() > 0 {
                (done.push(open), Seq::empty())
            } else {
                (done, Seq::empty())
            }
        } else {
            (done, open.push(c))
        }
    }
}

/// The maximal runs of non-space characters of `s`, in order.
pub open spec fn words(s: Seq<char>) -> Seq<Seq<char>> {
    let (done, open) = scan(s);
    if open.len() > 0 {
        done.push(open)
    } else {
        done
    }
}

/// `s` without one pair of enclosing backticks, where it starts and ends with one.
pub open spec fn strip_code_marks(s: Seq<char>) -> Seq<char> {
    if s.len() > 0 && s[0] == '`' && s.last() == '`' {
        if s.len() == 1 {
            Seq::empty()
        } else {
            s.subrange(1, s.len() - 1)
        }
    } else {
        s
    }
}

/// The texts of a list of strings.
pub open spec fn string_views(v: Seq<String>) -> Seq<Seq<char>> {
    v.map_values(|w: String| w@)
}

/// What a command line breaks into: a program and its arguments, or, where an
/// argument is a lone `|`, the whole (stripped) line handed to `bash -c`.
pub open spec fn decomposition(command: Seq<char>) -> (Seq<char>, Seq<Seq<char>>) {
    let line = strip_code_marks(command);
    let ws = words(line);
    let args = if ws.len() > 0 {
        ws.drop_first()
    } else {
        Seq::empty()
    };
    if args.contains(seq!['|']) {
        ("bash"@, seq!["-c"@, line])
    } else {
        (if ws.len() > 0 {
            ws[0]
        } else {
            Seq::empty()
        }, args)
    }
}

/// Whether `c` is white space, as `char::is_whitespace` says.
pub fn is_space_char(c: char) -> (r: bool)
    ensures
        r == is_space(c),
{
    let u = c as u32;
    (0x09 <= u && u <= 0x0D) || u == 0x20 || u == 0x85 || u == 0xA0 || u == 0x1680 || (0x2000 <= u
        && u <= 0x200A) || u == 0x2028 || u == 0x2029 || u == 0x202F || u == 0x205F || u == 0x3000
}

/// Splits `s` into its words, as `str::split_whitespace` does.
pub fn split_words(s: &str) -> (r: Vec<String>)
    ensures
        string_views(r@) == words(s@),
{
    let n = s.unicode_len();
    let mut out: Vec<String> = Vec::new();
    let mut start: usize = 0;
    let mut in_word = false;
    let mut i: usize = 0;
    while i < n
        invariant
            n == s@.len(),
            i <= n,
            start <= i,
            string_views(out@) == scan(s@.take(i as int)).0,
            in_word ==> start < i && scan(s@.take(i as int)).1 == s@.subrange(start as int, i as int),
            !in_word ==> scan(s@.take(i as int)).1 == Seq::<char>::empty(),
        decreases n - i,
    {
        let c = s.get_char(i);
        assert(s@.take(i + 1).drop_last() == s@.take(i as int));
        assert(s@.take(i + 1).last() == c);
        if is_space_char(c) {
            if in_word {
                let w = String::from_str(s.substring_char(start, i));
                out.push(w);
                assert(string_views(out@) =~= string_views(out@.drop_last()).push(w@));
                in_word = false;
            }
        } else {
            if !in_word {
                start = i;
                in_word = true;
                assert(scan(s@.take(i as int)).1.push(c) =~= s@.subrange(start as int, i + 1));
            } else {
                assert(s@.subrange(start as int, i as int).push(c) =~= s@.subrange(
                    start as int,
                    i + 1,
                ));
            }
        }
        i = i + 1;
    }
    assert(s@.take(n as int) =~= s@);
    if in_word {
        let w = String::from_str(s.substring_char(start, n));
        out.push(w);
        assert(string_views(out@) =~= string_views(out@.drop_last()).push(w@));
    }
    out
}


/// Whether some argument after the first word is a lone `|`.
fn has_pipe_argument(ws: &Vec<String>) -> (r: bool)
    ensures
        r == (ws@.len() > 0 && string_views(ws@).drop_first().contains(seq!['|'])),
{
    if ws.len() == 0 {
        return false;
    }
    let ghost views = string_views(ws@);
    let mut i: usize = 1;
    while i < ws.len()
        invariant
            1 <= i <= ws@.len(),
            views == string_views(ws@),
            forall|j: int| 1 <= j < i && j < ws@.len() ==> views[j] != seq!['|'],
        decreases ws.len() - i,
    {
        let w = ws[i].as_str();
        if w.unicode_len() == 1 && w.get_char(0) == '|' {
            assert(views[i as int] =~= seq!['|']);
            assert(views.drop_first()[i - 1] == seq!['|']);
            return true;
        }
        assert(views[i as int] != seq!['|']) by {
            if views[i as int] == seq!['|'] {
                assert(views[i as int].len() == 1);
            }
        }
        i = i + 1;
    }
    assert forall|k: int| 0 <= k < views.drop_first().len() implies views.drop_first()[k] != seq![
        '|',
    ] by {
        assert(views.drop_first()[k] == views[k + 1]);
    }
    false
}

/// Breaks a command line into the program to run and its arguments.
///
/// One pair of enclosing backticks is dropped first. The line is then split on
/// white space; where an argument is a lone `|`, the program is `bash` and the
/// arguments are `-c` and the stripped line, so that a shell runs the pipeline.
pub fn decompose(command: &str) -> (r: (String, Vec<String>))
    ensures
        (r.0@, string_views(r.1@)) == decomposition(command@),
{
    let n = command.unicode_len();
    let line: &str = if n > 0 && command.get_char(0) == '`' && command.get_char(n - 1) == '`' {
        if n == 1 {
            command.substring_char(0, 0)
        } else {
            command.substring_char(1, n - 1)
        }
    } else {
        command
    };
    assert(line@ == strip_code_marks(command@));
    let ws = split_words(line);
    let ghost views = string_views(ws@);
    if has_pipe_argument(&ws) {
        let mut args: Vec<String> = Vec::new();
        args.push(String::from_str("-c"));
        args.push(String::from_str(line));
        assert(string_views(args@) =~= seq!["-c"@, line@]);
        return (String::from_str("bash"), args);
    }
    let mut args: Vec<String> = Vec::new();
    let mut name = String::new();
    let mut i: usize = 0;
    while i < ws.len()
        invariant
            views == string_views(ws@),
            views == words(line@),
            i <= ws@.len(),
            i == 0 ==> name@ == Seq::<char>::empty() && args@.len() == 0,
            i > 0 ==> name@ == views[0] && string_views(args@) == views.subrange(1, i as int),
        decreases ws.len() - i,
    {
        if i == 0 {
            name = ws[0].clone();
        } else {
            args.push(ws[i].clone());
            assert(string_views(args@) =~= views.subrange(1, i + 1));
        }
        i = i + 1;
    }
    assert(i > 0 ==> views.subrange(1, i as int) =~= views.drop_first());
    assert(i == 0 ==> string_views(args@) =~= Seq::<Seq<char>>::empty());
    (name, args)
}

} // verus!
