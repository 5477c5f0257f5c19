//! Newline-delimited JSON frames `{"command": .., "data": ..}` and the read
//! accumulator that cuts a byte stream into them.
use vstd::prelude::*;
use vstd::string::*;
use crate::json::{json_member, json_quoted, read_member, FieldValue, JsonField};
use crate::text::push_quoted;
use vstd::utf8::{decode_utf8, valid_utf8};

verus! {

/// One frame of the control channel. `data` is itself JSON text whose shape
/// depends on `command`.
pub struct ClientMessage {
    pub command: String,
    pub data: String,
}

/// The string member `key` of the object in `text`, if it is one.
pub open spec fn text_member(text: Seq<char>, key: Seq<char>) -> Option<Seq<char>> {
    match json_member(text, key) {
        Some(FieldValue::Text(s)) => Some(s),
        _ => None,
    }
}

/// The command and data that `line` carries, where it is a well-formed frame.
pub open spec fn frame_of(line: Seq<char>) -> Option<(Seq<char>, Seq<char>)> {
    match (text_member(line, "command"@), text_member(line, "data"@)) {
        (Some(c), Some(d)) => Some((c, d)),
        _ => None,
    }
}

/// The JSON text of a frame, without its line end.
pub open spec fn frame_text(command: Seq<char>, data: Seq<char>) -> Seq<char> {
    "{\"command\":"@ + json_quoted(command) + ",\"data\":"@ + json_quoted(data) + "}"@
}

/// A frame as it goes on the wire: its JSON text and one `\n`.
pub open spec fn frame_line(command: Seq<char>, data: Seq<char>) -> Seq<char> {
    frame_text(command, data) + "\n"@
}

/// Reads the string member `key` of the object in `text`.
pub fn read_text_member(text: &str, key: &str) -> (r: Option<String>)
    ensures
        match r {
            Some(s) => text_member(text@, key@) == Some(s@),
            None => text_member(text@, key@).is_none(),
        },
{
    match read_member(text, key) {
        Some(JsonField::Text(s)) => Some(s),
        _ => None,
    }
}

impl ClientMessage {
    pub fn new(command: &str, data: &str) -> (r: ClientMessage)
        ensures
            r.command@ == command@,
            r.data@ == data@,
    {
        ClientMessage { command: command.to_owned(), data: data.to_owned() }
    }

    /// Decodes one frame; `None` where `line` is not a JSON object with string members
    /// `command` and `data`. Other members are ignored.
    pub fn decode(line: &str) -> (r: Option<ClientMessage>)
        ensures
            match r {
                Some(m) => frame_of(line@) == Some((m.command@, m.data@)),
                None => frame_of(line@).is_none(),
            },
    {
        let command = read_text_member(line, "command");
        let data = read_text_member(line, "data");
        match (command, data) {
            (Some(command), Some(data)) => Some(ClientMessage { command, data }),
            _ => None,
        }
    }

    /// The frame as it is written: its JSON text followed by exactly one `\n`.
    pub fn encode(&self) -> (r: String)
        ensures
            r@ == frame_line(self.command@, self.data@),
    {
        let mut out = String::new();
        out.append("{\"command\":");
        push_quoted(&mut out, self.command.as_str());
        out.append(",\"data\":");
        push_quoted(&mut out, self.data.as_str());
        out.append("}");
        out.append("\n");
        assert(out@ =~= frame_line(self.command@, self.data@));
        out
    }
}

/// The position of the first `\n` in `s`, if any.
pub open spec fn first_newline(s: Seq<u8>) -> Option<int> {
    if exists|k: int| 0 <= k < s.len() && s[k] == 0x0au8 {
        Some(
            choose|k: int|
                0 <= k < s.len() && s[k] == 0x0au8 && forall|m: int|
                    0 <= m < k ==> #[trigger] s[m] != 0x0au8,
        )
    } else {
        None
    }
}

/// The bytes before the first `\n` of `s`, or all of `s` where it has none.
pub open spec fn line_prefix(s: Seq<u8>) -> Seq<u8> {
    match first_newline(s) {
        Some(k) => s.subrange(0, k),
        None => s,
    }
}

/// Where the first `\n` of `b` stands, by a scan.
fn scan_newline(b: &[u8]) -> (r: Option<usize>)
    ensures
        match r {
            Some(k) => first_newline(b@) == Some(k as int) && k < b@.len(),
            None => first_newline(b@).is_none(),
        },
{
    let mut k: usize = 0;
    while k < b.len()
        invariant
            k <= b@.len(),
            forall|m: int| 0 <= m < k ==> #[trigger] b@[m] != 0x0au8,
        decreases b@.len() - k,
    {
        if b[k] == 0x0a {
            proof {
                let w = choose|w: int|
                    0 <= w < b@.len() && b@[w] == 0x0au8 && forall|m: int|
                        0 <= m < w ==> #[trigger] b@[m] != 0x0au8;
                assert(0 <= k < b@.len() && b@[k as int] == 0x0au8 && forall|m: int|
                    0 <= m < k ==> #[trigger] b@[m] != 0x0au8);
                if w < k {
                    assert(b@[w] != 0x0au8);
                }
                if k < w {
                    assert(b@[k as int] != 0x0au8);
                }
            }
            return Some(k);
        }
        k = k + 1;
    }
    None
}

/// The text of the bytes `b`, each invalid UTF-8 sequence replaced by U+FFFD.
pub uninterp spec fn utf8_lossy(b: Seq<u8>) -> Seq<char>;

/// Relies on String::from_utf8_lossy: text of the bytes, each invalid sequence
/// replaced by U+FFFD; valid UTF-8 comes back as the text it encodes.
#[verifier::external_body]
fn lossy_text(b: &[u8]) -> (r: String)
    ensures
        r@ == utf8_lossy(b@),
        valid_utf8(b@) ==> r@ == decode_utf8(b@),
{
    String::from_utf8_lossy(b).to_string()
}

/// The first line of `bytes`, without its `\n`: everything before the first `\n`, or
/// all of `bytes` where there is none. Invalid UTF-8 is replaced, not refused.
pub fn read_line(bytes: &[u8]) -> (r: String)
    ensures
        r@ == utf8_lossy(line_prefix(bytes@)),
        valid_utf8(line_prefix(bytes@)) ==> r@ == decode_utf8(line_prefix(bytes@)),
{
    match scan_newline(bytes) {
        Some(k) => {
            let head = slice_prefix(bytes, k);
            lossy_text(head)
        },
        None => lossy_text(bytes),
    }
}

fn slice_prefix(b: &[u8], k: usize) -> (r: &[u8])
    requires
        k <= b@.len(),
    ensures
        r@ == b@.subrange(0, k as int),
{
    vstd::slice::slice_subrange(b, 0, k)
}

/// The read accumulator of one connection: bytes received and not yet framed.
pub struct LineBuffer {
    pending: Vec<u8>,
}

impl View for LineBuffer {
    type V = Seq<u8>;

    closed spec fn view(&self) -> Seq<u8> {
        self.pending@
    }
}

impl LineBuffer {
    pub fn new() -> (r: LineBuffer)
        ensures
            r@ == Seq::<u8>::empty(),
    {
        LineBuffer { pending: Vec::new() }
    }

    /// Appends what one read returned.
    pub fn push_bytes(&mut self, bytes: &[u8])
        ensures
            final(self)@ == old(self)@ + bytes@,
    {
        let mut k: usize = 0;
        let ghost start = self@;
        while k < bytes.len()
            invariant
                k <= bytes@.len(),
                self@ == start + bytes@.subrange(0, k as int),
            decreases bytes@.len() - k,
        {
            self.pending.push(bytes[k]);
            k = k + 1;
            assert(self@ =~= start + bytes@.subrange(0, k as int));
        }
        assert(bytes@.subrange(0, k as int) =~= bytes@);
    }

    /// Takes the next complete frame: the bytes before the first `\n`, which leaves
    /// the buffer together with that `\n`. `None`, and the buffer unchanged, while no
    /// `\n` has arrived.
    pub fn next_line(&mut self) -> (r: Option<Vec<u8>>)
        ensures
            match first_newline(old(self)@) {
                Some(k) => r.is_some() && r.unwrap()@ == old(self)@.subrange(0, k) && final(self)@
                    == old(self)@.subrange(k + 1, old(self)@.len() as int),
                None => r.is_none() && final(self)@ == old(self)@,
            },
    {
        match scan_newline(self.pending.as_slice()) {
            Some(k) => {
                assert(k < self.pending.len());
                let mut line = self.pending.split_off(k + 1);
                std::mem::swap(&mut line, &mut self.pending);
                line.truncate(k);
                Some(line)
            },
            None => None,
        }
    }

    /// The next complete frame as text.
    pub fn next_text_line(&mut self) -> (r: Option<String>)
        ensures
            match first_newline(old(self)@) {
                Some(k) => r.is_some() && r.unwrap()@ == utf8_lossy(old(self)@.subrange(0, k))
                    && final(self)@ == old(self)@.subrange(k + 1, old(self)@.len() as int),
                None => r.is_none() && final(self)@ == old(self)@,
            },
    {
        match self.next_line() {
            Some(line) => Some(lossy_text(line.as_slice())),
            None => None,
        }
    }
}

} // verus!
