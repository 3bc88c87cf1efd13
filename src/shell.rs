//! Command-line splitting for the kernel shell.
use vstd::prelude::*;
use vstd::string::StrSliceExecFns;

verus! {

/// The text that a byte string encodes in UTF-8, or `None` when it is not valid UTF-8.
pub uninterp spec fn utf8_text(b: Seq<u8>) -> Option<Seq<char>>;

/// Relies on `String::from_utf8`: the string the bytes encode, when they are valid UTF-8.
#[verifier::external_body]
fn utf8_string(bytes: Vec<u8>) -> (r: Option<String>)
    ensures
        match r {
            Some(s) => utf8_text(bytes@) == Some(s@),
            None => utf8_text(bytes@) is None,
        },
{
    String::from_utf8(bytes).ok()
}

/// The words finished so far and the word being read, after reading `s`.
pub open spec fn split_state(s: Seq<u8>) -> (Seq<Seq<u8>>, Seq<u8>)
    decreases s.len(),
{
    if s.len() == 0 {
        (Seq::empty(), Seq::empty())
    } else {
        let (ws, cur) = split_state(s.drop_last());
        if s.last() == 0x20u8 {
            if cur.len() > 0 {
                (ws.push(cur), Seq::empty())
            } else {
                (ws, Seq::empty())
            }
        } else {
            (ws, cur.push(s.last()))
        }
    }
}

/// The maximal runs of bytes other than a space, in order.
pub open spec fn words(s: Seq<u8>) -> Seq<Seq<u8>> {
    let (ws, cur) = split_state(s);
    if cur.len() > 0 {
        ws.push(cur)
    } else {
        ws
    }
}

/// The words that are valid UTF-8, as text, in order.
pub open spec fn decoded_words(ws: Seq<Seq<u8>>) -> Seq<Seq<char>>
    decreases ws.len(),
{
    if ws.len() == 0 {
        Seq::empty()
    } else {
        let prev = decoded_words(ws.drop_last());
        match utf8_text(ws.last()) {
            Some(t) => prev.push(t),
            None => prev,
        }
    }
}

/// Appends the text of `word` to `result` when it is valid UTF-8.
fn push_word(result: &mut Vec<String>, word: Vec<u8>, ghost_words: Ghost<Seq<Seq<u8>>>)
    requires
        old(result)@.map_values(|s: String| s@) == decoded_words(ghost_words@),
    ensures
        final(result)@.map_values(|s: String| s@) == decoded_words(ghost_words@.push(word@)),
{
    let ghost ws2 = ghost_words@.push(word@);
    assert(ws2.drop_last() =~= ghost_words@);
    match utf8_string(word) {
        Some(s) => {
            result.push(s);
            assert(result@.map_values(|s: String| s@) =~= decoded_words(ws2));
        },
        None => {},
    }
}

/// Splits a command line at spaces into its words, dropping empty ones and those that
/// are not valid UTF-8.
pub fn parse_command_line(input: &Vec<u8>) -> (r: Vec<String>)
    ensures
        r@.map_values(|s: String| s@) == decoded_words(words(input@)),
{
    let mut result: Vec<String> = Vec::new();
    let mut cur: Vec<u8> = Vec::new();
    let ghost mut ws: Seq<Seq<u8>> = Seq::empty();
    let mut i: usize = 0;
    assert(result@.map_values(|s: String| s@) =~= decoded_words(ws));
    while i < input.len()
        invariant
            i <= input@.len(),
            split_state(input@.subrange(0, i as int)) == (ws, cur@),
            result@.map_values(|s: String| s@) == decoded_words(ws),
        decreases input@.len() - i,
    {
        let b = input[i];
        assert(input@.subrange(0, i + 1).drop_last() =~= input@.subrange(0, i as int));
        if b == 0x20u8 {
            if cur.len() > 0 {
                let word = cur;
                cur = Vec::new();
                push_word(&mut result, word, Ghost(ws));
                proof {
                    ws = ws.push(word@);
                }
            }
        } else {
            cur.push(b);
        }
        i = i + 1;
    }
    assert(input@.subrange(0, input@.len() as int) =~= input@);
    if cur.len() > 0 {
        let ghost last = cur@;
        push_word(&mut result, cur, Ghost(ws));
        proof {
            ws = ws.push(last);
        }
    }
    result
}


/// A shell command, as read from a command line.
#[derive(Debug)]
pub enum ShellCommand {
    /// The line holds no word.
    Empty,
    Help,
    /// Echo the arguments.
    Param { args: Vec<String> },
    /// Create `filename` holding the remaining words joined by spaces.
    Write { filename: String, contents: Vec<String> },
    Read { filename: String },
    Ls,
    Mkdir { dirname: String },
    Rand,
    Time,
    Color,
    Bits,
    Exit,
    /// `write`, `read` or `mkdir` without the name it needs.
    MissingArgument,
    Unknown,
}

/// Whether two strings hold the same characters.
fn text_equals(a: &str, b: &str) -> (r: bool)
    ensures
        r == (a@ == b@),
{
    let n = a.unicode_len();
    if n != b.unicode_len() {
        return false;
    }
    let mut i: usize = 0;
    while i < n
        invariant
            i <= n,
            n == a@.len(),
            n == b@.len(),
            forall|k: int| 0 <= k < i ==> a@[k] == b@[k],
        decreases n - i,
    {
        if a.get_char(i) != b.get_char(i) {
            return false;
        }
        i = i + 1;
    }
    assert(a@ =~= b@);
    true
}

/// The text of the words, as a sequence.
pub open spec fn texts(v: Seq<String>) -> Seq<Seq<char>> {
    v.map_values(|s: String| s@)
}

/// Whether the first word is `name`.
pub open spec fn names(ws: Seq<Seq<char>>, name: Seq<char>) -> bool {
    ws.len() > 0 && ws[0] == name
}

/// One of the commands the shell knows.
pub open spec fn known(ws: Seq<Seq<char>>) -> bool {
    names(ws, "help"@) || names(ws, "param"@) || names(ws, "write"@) || names(ws, "read"@) || names(ws, "ls"@)
        || names(ws, "mkdir"@) || names(ws, "rand"@) || names(ws, "time"@) || names(ws, "color"@)
        || names(ws, "bits"@) || names(ws, "exit"@)
}

/// `r` is the command that the words `ws` of a line ask for.
pub open spec fn command_of(ws: Seq<Seq<char>>, r: ShellCommand) -> bool {
    &&& (r is Empty <==> ws.len() == 0)
    &&& (r is Help <==> names(ws, "help"@))
    &&& (r is Ls <==> names(ws, "ls"@))
    &&& (r is Rand <==> names(ws, "rand"@))
    &&& (r is Time <==> names(ws, "time"@))
    &&& (r is Color <==> names(ws, "color"@))
    &&& (r is Bits <==> names(ws, "bits"@))
    &&& (r is Exit <==> names(ws, "exit"@))
    &&& (r is Param <==> names(ws, "param"@))
    &&& (r matches ShellCommand::Param { args } ==> texts(args@) == ws.drop_first())
    &&& (r is Write <==> names(ws, "write"@) && ws.len() >= 2)
    &&& (r matches ShellCommand::Write { filename, contents } ==> filename@ == ws[1] && texts(contents@) == ws.subrange(2, ws.len() as int))
    &&& (r is Read <==> names(ws, "read"@) && ws.len() >= 2)
    &&& (r matches ShellCommand::Read { filename } ==> filename@ == ws[1])
    &&& (r is Mkdir <==> names(ws, "mkdir"@) && ws.len() >= 2)
    &&& (r matches ShellCommand::Mkdir { dirname } ==> dirname@ == ws[1])
    &&& (r is MissingArgument <==> (names(ws, "write"@) || names(ws, "read"@) || names(ws, "mkdir"@)) && ws.len() < 2)
    &&& (r is Unknown <==> ws.len() > 0 && !known(ws))
}

/// Reads the command that a command line asks for.
pub fn shell_command(line: &Vec<u8>) -> (r: ShellCommand)
    ensures
        command_of(decoded_words(words(line@)), r),
{
    let mut ws = parse_command_line(line);
    let ghost all = texts(ws@);
    proof {
        reveal_strlit("help");
        reveal_strlit("param");
        reveal_strlit("write");
        reveal_strlit("read");
        reveal_strlit("ls");
        reveal_strlit("mkdir");
        reveal_strlit("rand");
        reveal_strlit("time");
        reveal_strlit("color");
        reveal_strlit("bits");
        reveal_strlit("exit");
        assert("help"@[0] == 'h' && "param"@[0] == 'p' && "write"@[0] == 'w' && "read"@[0] == 'r'
            && "ls"@[0] == 'l' && "mkdir"@[0] == 'm' && "rand"@[0] == 'r' && "time"@[0] == 't'
            && "color"@[0] == 'c' && "bits"@[0] == 'b' && "exit"@[0] == 'e');
        assert("read"@[1] == 'e' && "rand"@[1] == 'a');
    }
    if ws.len() == 0 {
        return ShellCommand::Empty;
    }
    let name = ws.remove(0);
    assert(name@ == all[0]);
    assert(texts(ws@) =~= all.drop_first());
    let n = name.as_str();
    if text_equals(n, "help") {
        ShellCommand::Help
    } else if text_equals(n, "param") {
        ShellCommand::Param { args: ws }
    } else if text_equals(n, "ls") {
        ShellCommand::Ls
    } else if text_equals(n, "rand") {
        ShellCommand::Rand
    } else if text_equals(n, "time") {
        ShellCommand::Time
    } else if text_equals(n, "color") {
        ShellCommand::Color
    } else if text_equals(n, "bits") {
        ShellCommand::Bits
    } else if text_equals(n, "exit") {
        ShellCommand::Exit
    } else if text_equals(n, "write") || text_equals(n, "read") || text_equals(n, "mkdir") {
        if ws.len() == 0 {
            return ShellCommand::MissingArgument;
        }
        let first = ws.remove(0);
        assert(first@ == all[1]);
        assert(texts(ws@) =~= all.subrange(2, all.len() as int));
        if text_equals(n, "write") {
            ShellCommand::Write { filename: first, contents: ws }
        } else if text_equals(n, "read") {
            ShellCommand::Read { filename: first }
        } else {
            ShellCommand::Mkdir { dirname: first }
        }
    } else {
        ShellCommand::Unknown
    }
}

} // verus!
