use vstd::prelude::*;

verus! {

use vstd::string::StringExecFns;

/// The client-facing kind of a wire frame.
#[derive(Clone, Copy, Debug, PartialEq, Eq, Structural)]
pub enum StreamMethod {
    Send,
    Join,
    Leave,
}

/// The wire-level serialization of a command, as one JSON text frame.
/// Inbound frames carry only `method` and `message`; `sender` and
/// `is_self` are computed by the server when translating outward.
#[derive(Clone, Debug)]
pub struct StreamCommand {
    pub method: StreamMethod,
    pub message: String,
    pub sender: String,
    pub is_self: bool,
}

/// The lower-case hexadecimal digit for `n` (0 to 15).
pub open spec fn hex_digit(n: int) -> char {
    if n == 0 {
        '0'
    } else if n == 1 {
        '1'
    } else if n == 2 {
        '2'
    } else if n == 3 {
        '3'
    } else if n == 4 {
        '4'
    } else if n == 5 {
        '5'
    } else if n == 6 {
        '6'
    } else if n == 7 {
        '7'
    } else if n == 8 {
        '8'
    } else if n == 9 {
        '9'
    } else if n == 10 {
        'a'
    } else if n == 11 {
        'b'
    } else if n == 12 {
        'c'
    } else if n == 13 {
        'd'
    } else if n == 14 {
        'e'
    } else {
        'f'
    }
}

/// How one character appears inside a JSON string: quote and backslash
/// are escaped, the named control characters take their short escapes,
/// the other control characters take the `\u00..` form, and everything
/// else stands as itself.
pub open spec fn escape_char(c: char) -> Seq<char> {
    if c == '"' {
        seq!['\\', '"']
    } else if c == '\\' {
        seq!['\\', '\\']
    } else if c == '\u{8}' {
        seq!['\\', 'b']
    } else if c == '\t' {
        seq!['\\', 't']
    } else if c == '\n' {
        seq!['\\', 'n']
    } else if c == '\u{c}' {
        seq!['\\', 'f']
    } else if c == '\r' {
        seq!['\\', 'r']
    } else if (c as u32) < 0x20 {
        seq!['\\', 'u', '0', '0', hex_digit(c as u32 as int / 16), hex_digit(c as u32 as int % 16)]
    } else {
        seq![c]
    }
}

/// A whole string escaped for use inside a JSON string literal.
pub open spec fn escape_string(s: Seq<char>) -> Seq<char>
    decreases s.len(),
{
    if s.len() == 0 {
        Seq::<char>::empty()
    } else {
        escape_string(s.drop_last()) + escape_char(s.last())
    }
}

/// The JSON name of each frame kind.
pub open spec fn method_name(m: StreamMethod) -> Seq<char> {
    match m {
        StreamMethod::Send => "Send"@,
        StreamMethod::Join => "Join"@,
        StreamMethod::Leave => "Leave"@,
    }
}

/// The full outbound wire frame: a JSON object with the four fields
/// `method`, `message`, `sender` and `is_self`, in that order.
pub open spec fn json_frame(
    method: StreamMethod,
    message: Seq<char>,
    sender: Seq<char>,
    is_self: bool,
) -> Seq<char> {
    "{\"method\":\""@ + method_name(method) + "\",\"message\":\""@ + escape_string(message)
        + "\",\"sender\":\""@ + escape_string(sender) + "\",\"is_self\":"@ + (if is_self {
        "true"@
    } else {
        "false"@
    }) + "}"@
}

/// The system-generated notice texts for presence changes.
pub open spec fn join_notice(user: Seq<char>) -> Seq<char> {
    "User "@ + user + " join the room"@
}

pub open spec fn leave_notice(user: Seq<char>) -> Seq<char> {
    "User "@ + user + " leave the room"@
}

/// Relies on `String::push`: appends exactly one character.
#[verifier::external_body]
fn push_char(s: &mut String, c: char)
    ensures
        final(s)@ == old(s)@.push(c),
{
    s.push(c);
}

fn hex_digit_of(n: u32) -> (r: char)
    requires
        n < 16,
    ensures
        r == hex_digit(n as int),
{
    if n == 0 {
        '0'
    } else if n == 1 {
        '1'
    } else if n == 2 {
        '2'
    } else if n == 3 {
        '3'
    } else if n == 4 {
        '4'
    } else if n == 5 {
        '5'
    } else if n == 6 {
        '6'
    } else if n == 7 {
        '7'
    } else if n == 8 {
        '8'
    } else if n == 9 {
        '9'
    } else if n == 10 {
        'a'
    } else if n == 11 {
        'b'
    } else if n == 12 {
        'c'
    } else if n == 13 {
        'd'
    } else if n == 14 {
        'e'
    } else {
        'f'
    }
}

fn push_escaped_char(out: &mut String, c: char)
    ensures
        final(out)@ == old(out)@ + escape_char(c),
{
    if c == '"' {
        push_char(out, '\\');
        push_char(out, '"');
        proof {
            assert(out@ =~= old(out)@ + escape_char(c));
        }
    } else if c == '\\' {
        push_char(out, '\\');
        push_char(out, '\\');
        proof {
            assert(out@ =~= old(out)@ + escape_char(c));
        }
    } else if c == '\u{8}' {
        push_char(out, '\\');
        push_char(out, 'b');
        proof {
            assert(out@ =~= old(out)@ + escape_char(c));
        }
    } else if c == '\t' {
        push_char(out, '\\');
        push_char(out, 't');
        proof {
            assert(out@ =~= old(out)@ + escape_char(c));
        }
    } else if c == '\n' {
        push_char(out, '\\');
        push_char(out, 'n');
        proof {
            assert(out@ =~= old(out)@ + escape_char(c));
        }
    } else if c == '\u{c}' {
        push_char(out, '\\');
        push_char(out, 'f');
        proof {
            assert(out@ =~= old(out)@ + escape_char(c));
        }
    } else if c == '\r' {
        push_char(out, '\\');
        push_char(out, 'r');
        proof {
            assert(out@ =~= old(out)@ + escape_char(c));
        }
    } else if (c as u32) < 0x20 {
        let v = c as u32;
        push_char(out, '\\');
        push_char(out, 'u');
        push_char(out, '0');
        push_char(out, '0');
        push_char(out, hex_digit_of(v / 16));
        push_char(out, hex_digit_of(v % 16));
        proof {
            assert(out@ =~= old(out)@ + escape_char(c));
        }
    } else {
        push_char(out, c);
        proof {
            assert(out@ =~= old(out)@ + escape_char(c));
        }
    }
}

/// Append `s`, escaped for JSON, to `out`.
fn push_escaped(out: &mut String, s: &str)
    ensures
        final(out)@ == old(out)@ + escape_string(s@),
{
    let n = s.unicode_len();
    let mut i: usize = 0;
    while i < n
        invariant
            n == s@.len(),
            i <= n,
            out@ == old(out)@ + escape_string(s@.subrange(0, i as int)),
        decreases n - i,
    {
        let c = s.get_char(i);
        push_escaped_char(out, c);
        proof {
            let t = s@.subrange(0, i + 1);
            assert(t.drop_last() =~= s@.subrange(0, i as int));
            assert(t.last() == s@[i as int]);
            assert(escape_string(t) == escape_string(s@.subrange(0, i as int)) + escape_char(
                s@[i as int],
            ));
            assert(out@ =~= old(out)@ + escape_string(s@.subrange(0, i + 1)));
        }
        i = i + 1;
    }
    proof {
        assert(s@.subrange(0, n as int) =~= s@);
    }
}

/// Serialize one outbound frame as the JSON text the wire protocol
/// defines.
pub fn encode_frame(method: StreamMethod, message: &str, sender: &str, is_self: bool) -> (r:
    String)
    ensures
        r@ == json_frame(method, message@, sender@, is_self),
{
    let mut out = String::new();
    out.append("{\"method\":\"");
    match method {
        StreamMethod::Send => out.append("Send"),
        StreamMethod::Join => out.append("Join"),
        StreamMethod::Leave => out.append("Leave"),
    }
    out.append("\",\"message\":\"");
    push_escaped(&mut out, message);
    out.append("\",\"sender\":\"");
    push_escaped(&mut out, sender);
    out.append("\",\"is_self\":");
    if is_self {
        out.append("true");
    } else {
        out.append("false");
    }
    out.append("}");
    proof {
        assert(out@ =~= json_frame(method, message@, sender@, is_self));
    }
    out
}

impl StreamCommand {
    /// The JSON text of this frame.
    pub fn encode(&self) -> (r: String)
        ensures
            r@ == json_frame(self.method, self.message@, self.sender@, self.is_self),
    {
        encode_frame(self.method, self.message.as_str(), self.sender.as_str(), self.is_self)
    }

    /// The system notice announcing that `user` entered, as wire text.
    pub fn join(user: String) -> (r: String)
        ensures
            r@ == json_frame(StreamMethod::Join, join_notice(user@), "System"@, false),
    {
        let mut message: String = "User ".to_owned();
        message.append(user.as_str());
        message.append(" join the room");
        let frame = StreamCommand {
            method: StreamMethod::Join,
            message,
            sender: "System".to_owned(),
            is_self: false,
        };
        frame.encode()
    }

    /// A chat message of another member, as wire text for this
    /// connection: `is_self` is off.
    pub fn send_by_others(user: String, message: String) -> (r: String)
        ensures
            r@ == json_frame(StreamMethod::Send, message@, user@, false),
    {
        let frame = StreamCommand {
            method: StreamMethod::Send,
            message,
            sender: user,
            is_self: false,
        };
        frame.encode()
    }

    /// A chat message this connection's own user sent, echoed back with
    /// `is_self` on.
    pub fn send_by_self(user: String, message: String) -> (r: String)
        ensures
            r@ == json_frame(StreamMethod::Send, message@, user@, true),
    {
        let frame = StreamCommand {
            method: StreamMethod::Send,
            message,
            sender: user,
            is_self: true,
        };
        frame.encode()
    }

    /// The system notice announcing that `user` left, as wire text.
    pub fn leave(user: String) -> (r: String)
        ensures
            r@ == json_frame(StreamMethod::Leave, leave_notice(user@), "System"@, false),
    {
        let mut message: String = "User ".to_owned();
        message.append(user.as_str());
        message.append(" leave the room");
        let frame = StreamCommand {
            method: StreamMethod::Leave,
            message,
            sender: "System".to_owned(),
            is_self: false,
        };
        frame.encode()
    }
}

} // verus!
