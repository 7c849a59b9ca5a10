use vstd::prelude::*;
use vstd::string::StrSliceExecFns;
use vstd::string::StringExecFns;

verus! {

/// The four kinds of frame the protocol knows.
#[derive(Clone, Copy, Debug, PartialEq, Eq, Structural)]
pub enum MsgTypes {
    Users,
    Register,
    Message,
    Error,
}

/// The lowercase tag that names a kind on the wire.
pub open spec fn tag_of(k: MsgTypes) -> Seq<char> {
    match k {
        MsgTypes::Users => "users"@,
        MsgTypes::Register => "register"@,
        MsgTypes::Message => "message"@,
        MsgTypes::Error => "error"@,
    }
}

/// The kind whose tag is `t`, if any.
pub open spec fn kind_of_tag(t: Seq<char>) -> Option<MsgTypes> {
    if t == "users"@ {
        Some(MsgTypes::Users)
    } else if t == "register"@ {
        Some(MsgTypes::Register)
    } else if t == "message"@ {
        Some(MsgTypes::Message)
    } else if t == "error"@ {
        Some(MsgTypes::Error)
    } else {
        None
    }
}

impl MsgTypes {
    pub fn tag(&self) -> (r: &'static str)
        ensures
            r@ == tag_of(*self),
    {
        match self {
            MsgTypes::Users => "users",
            MsgTypes::Register => "register",
            MsgTypes::Message => "message",
            MsgTypes::Error => "error",
        }
    }

    pub fn from_tag(t: &str) -> (r: Option<MsgTypes>)
        ensures
            r == kind_of_tag(t@),
    {
        proof {
            reveal_strlit("users");
            reveal_strlit("register");
            reveal_strlit("message");
            reveal_strlit("error");
        }
        if str_eq(t, "users") {
            Some(MsgTypes::Users)
        } else if str_eq(t, "register") {
            Some(MsgTypes::Register)
        } else if str_eq(t, "message") {
            Some(MsgTypes::Message)
        } else if str_eq(t, "error") {
            Some(MsgTypes::Error)
        } else {
            None
        }
    }
}

/// Character-wise equality of two strings.
pub fn str_eq(a: &str, b: &str) -> (r: bool)
    ensures
        r == (a@ == b@),
{
    let n = a.unicode_len();
    if n != b.unicode_len() {
        return false;
    }
    let mut i: usize = 0;
    while i < n
        invariant
            n == a@.len(),
            n == b@.len(),
            i <= n,
            a@.subrange(0, i as int) == b@.subrange(0, i as int),
        decreases n - i,
    {
        if a.get_char(i) != b.get_char(i) {
            return false;
        }
        proof {
            assert(a@.subrange(0, i + 1) =~= a@.subrange(0, i as int).push(a@[i as int]));
            assert(b@.subrange(0, i + 1) =~= b@.subrange(0, i as int).push(b@[i as int]));
        }
        i = i + 1;
    }
    proof {
        assert(a@ =~= a@.subrange(0, n as int));
        assert(b@ =~= b@.subrange(0, n as int));
    }
    true
}

#[verifier::external_type_specification]
#[verifier::external_body]
pub struct ExJsonError(serde_json::Error);

/// The JSON string literal (quotes and escapes included) that encodes `s`.
pub uninterp spec fn json_str_of(s: Seq<char>) -> Seq<char>;

/// Relies on serde_json::to_string on a `str`: it writes the escaped string
/// literal into a `Vec<u8>`, which cannot fail, and the text depends on `s`
/// alone.
#[verifier::external_body]
fn json_quote(s: &str) -> (r: Result<String, serde_json::Error>)
    ensures
        r is Ok,
        r matches Ok(q) ==> q@ == json_str_of(s@),
{
    serde_json::to_string(s)
}

/// `s` as a JSON string literal.
pub fn quote(s: &str) -> (r: String)
    ensures
        r@ == json_str_of(s@),
{
    match json_quote(s) {
        Ok(q) => q,
        Err(_) => String::new(),
    }
}


/// One entry of the transcript.
#[derive(Clone, Debug)]
pub struct ChatMessage {
    pub from: String,
    pub message: String,
    pub timestamp: Option<String>,
}

/// What a transcript entry means: sender, body, optional timestamp.
pub struct MessageView {
    pub sender: Seq<char>,
    pub body: Seq<char>,
    pub sent_at: Option<Seq<char>>,
}

pub open spec fn opt_view(o: Option<String>) -> Option<Seq<char>> {
    match o {
        Some(s) => Some(s@),
        None => None,
    }
}

impl View for ChatMessage {
    type V = MessageView;

    open spec fn view(&self) -> MessageView {
        MessageView { sender: self.from@, body: self.message@, sent_at: opt_view(self.timestamp) }
    }
}

/// The `data` field of a frame: its text, and the outcome of reading that
/// text as a nested chat message (the error text when it is not one).
#[derive(Debug)]
pub struct Payload {
    pub text: String,
    pub as_message: Result<ChatMessage, String>,
}

/// A frame as read off the wire, before its kind is checked.
#[derive(Debug)]
pub struct RawFrame {
    pub message_type: Option<String>,
    pub data_array: Option<Vec<String>>,
    pub data: Option<Payload>,
}

/// A frame whose kind is one of the four known ones.
#[derive(Debug)]
pub struct Envelope {
    pub kind: MsgTypes,
    pub items: Option<Vec<String>>,
    pub payload: Option<Payload>,
}

#[derive(Clone, Copy, Debug, PartialEq, Eq, Structural)]
pub enum DecodeError {
    /// `messageType` is absent or names no known kind.
    UnknownKind,
}

/// The kind a raw frame carries, if it is a known one.
pub open spec fn raw_kind(raw: RawFrame) -> Option<MsgTypes> {
    match raw.message_type {
        Some(t) => kind_of_tag(t@),
        None => None,
    }
}

/// Checks the kind of a raw frame; the other fields carry over unchanged.
pub fn classify(raw: RawFrame) -> (r: Result<Envelope, DecodeError>)
    ensures
        raw_kind(raw) is None <==> r == Err::<Envelope, DecodeError>(DecodeError::UnknownKind),
        raw_kind(raw) matches Some(k) ==> (r matches Ok(e) && e.kind == k && e.items == raw.data_array
            && e.payload == raw.data),
{
    let kind = match &raw.message_type {
        Some(t) => MsgTypes::from_tag(t.as_str()),
        None => None,
    };
    match kind {
        Some(k) => Ok(Envelope { kind: k, items: raw.data_array, payload: raw.data }),
        None => Err(DecodeError::UnknownKind),
    }
}

/// The JSON text of a list of strings.
pub open spec fn json_list(items: Seq<Seq<char>>) -> Seq<char>
    decreases items.len(),
{
    if items.len() == 0 {
        "[]"@
    } else {
        "["@ + json_items(items) + "]"@
    }
}

/// The quoted items of a non-empty list, separated by commas.
pub open spec fn json_items(items: Seq<Seq<char>>) -> Seq<char>
    decreases items.len(),
{
    if items.len() <= 1 {
        if items.len() == 0 { Seq::empty() } else { json_str_of(items[0]) }
    } else {
        json_items(items.drop_last()) + ","@ + json_str_of(items.last())
    }
}

pub open spec fn strings_view(v: Seq<String>) -> Seq<Seq<char>> {
    v.map_values(|s: String| s@)
}

/// The wire text of an outbound frame: its tag, its `data` and its
/// `dataArray`, in that order; an absent field is `null`.
pub open spec fn frame_text(kind: MsgTypes, data: Option<Seq<char>>, items: Option<Seq<Seq<char>>>) -> Seq<char> {
    "{\"messageType\":"@ + json_str_of(tag_of(kind)) + ",\"data\":"@
        + (match data { Some(d) => json_str_of(d), None => "null"@ })
        + ",\"dataArray\":"@
        + (match items { Some(l) => json_list(l), None => "null"@ })
        + "}"@
}

fn encode_list(items: &Vec<String>) -> (r: String)
    ensures
        r@ == json_list(strings_view(items@)),
{
    let mut out = String::from_str("[");
    let mut i: usize = 0;
    while i < items.len()
        invariant
            i <= items@.len(),
            i == 0 ==> out@ == "["@,
            i > 0 ==> out@ == "["@ + json_items(strings_view(items@.subrange(0, i as int))),
        decreases items.len() - i,
    {
        if i > 0 {
            out.append(",");
        }
        let q = quote(items[i].as_str());
        out.append(q.as_str());
        proof {
            let prev = strings_view(items@.subrange(0, i as int));
            let cur = strings_view(items@.subrange(0, i + 1));
            assert(cur.drop_last() =~= prev);
            assert(cur.last() == items@[i as int]@);
            if i == 0 {
                assert(cur.len() == 1);
            }
        }
        i = i + 1;
    }
    out.append("]");
    proof {
        assert(items@.subrange(0, items@.len() as int) =~= items@);
        if items@.len() == 0 {
            reveal_strlit("[");
            reveal_strlit("]");
            reveal_strlit("[]");
            assert(out@ =~= "[]"@);
        }
    }
    out
}

/// The wire text of a frame.
pub fn encode(kind: MsgTypes, data: Option<&str>, items: Option<&Vec<String>>) -> (r: String)
    ensures
        r@ == frame_text(
            kind,
            match data { Some(d) => Some(d@), None => None },
            match items { Some(l) => Some(strings_view(l@)), None => None },
        ),
{
    let mut out = String::from_str("{\"messageType\":");
    let t = quote(kind.tag());
    out.append(t.as_str());
    out.append(",\"data\":");
    match data {
        Some(d) => {
            let q = quote(d);
            out.append(q.as_str());
        },
        None => {
            out.append("null");
        },
    }
    out.append(",\"dataArray\":");
    match items {
        Some(l) => {
            let q = encode_list(l);
            out.append(q.as_str());
        },
        None => {
            out.append("null");
        },
    }
    out.append("}");
    out
}

} // verus!
