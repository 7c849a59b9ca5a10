use crate::protocol::{
    classify, encode, frame_text, opt_view, raw_kind, strings_view, str_eq, ChatMessage,
    Envelope, MessageView, MsgTypes, Payload, RawFrame,
};
use vstd::prelude::*;
use vstd::string::StrSliceExecFns;
use vstd::string::StringExecFns;

verus! {

/// One participant of the roster.
#[derive(Clone, Debug)]
pub struct UserProfile {
    pub name: String,
    pub avatar: String,
    pub is_online: bool,
}

pub struct ProfileView {
    pub name: Seq<char>,
    pub avatar: Seq<char>,
    pub online: bool,
}

impl View for UserProfile {
    type V = ProfileView;

    open spec fn view(&self) -> ProfileView {
        ProfileView { name: self.name@, avatar: self.avatar@, online: self.is_online }
    }
}

/// Where the session stands.
#[derive(Clone, Copy, Debug, PartialEq, Eq, Structural)]
pub enum Phase {
    /// No roster has been received since the last error, or registration failed.
    Disconnected,
    /// Registration was sent; no roster yet.
    Connecting,
    /// At least one roster arrived since the last error.
    Joined,
}

/// Why a session could not be created.
#[derive(Clone, Copy, Debug, PartialEq, Eq, Structural)]
pub enum ConfigError {
    EmptyIdentity,
}

/// An event handed to the engine.
#[derive(Debug)]
pub enum Msg {
    /// An inbound frame, or the reader's description of why the text was no frame.
    HandleMsg(Result<RawFrame, String>),
    SubmitMessage,
    /// A key was pressed in the input; holds the key's name.
    OnKeyPress(String),
    UpdateInput(String),
}

/// The session engine: roster, transcript, connectivity, last error and draft.
pub struct Chat {
    identity: String,
    users: Vec<UserProfile>,
    messages: Vec<ChatMessage>,
    phase: Phase,
    error_message: Option<String>,
    input_value: String,
}

pub struct ChatView {
    pub identity: Seq<char>,
    pub roster: Seq<ProfileView>,
    pub transcript: Seq<MessageView>,
    pub phase: Phase,
    pub last_error: Option<Seq<char>>,
    pub draft: Seq<char>,
}

impl View for Chat {
    type V = ChatView;

    closed spec fn view(&self) -> ChatView {
        ChatView {
            identity: self.identity@,
            roster: self.users@.map_values(|u: UserProfile| u@),
            transcript: self.messages@.map_values(|m: ChatMessage| m@),
            phase: self.phase,
            last_error: opt_view(self.error_message),
            draft: self.input_value@,
        }
    }
}

pub open spec fn avatar_of(name: Seq<char>) -> Seq<char> {
    "https://avatars.dicebear.com/api/adventurer-neutral/"@ + name + ".svg"@
}

pub open spec fn profile_of(name: Seq<char>) -> ProfileView {
    ProfileView { name, avatar: avatar_of(name), online: true }
}

pub open spec fn roster_of(names: Seq<Seq<char>>) -> Seq<ProfileView> {
    names.map_values(|n: Seq<char>| profile_of(n))
}

/// The names a `users` frame lists; none when the list is absent.
pub open spec fn items_of(o: Option<Vec<String>>) -> Seq<Seq<char>> {
    match o {
        Some(v) => strings_view(v@),
        None => Seq::empty(),
    }
}

pub open spec fn frame_error(desc: Seq<char>) -> Seq<char> {
    "Failed to parse server message: "@ + desc
}

pub open spec fn unknown_kind_error() -> Seq<char> {
    "Failed to parse server message: unknown message type"@
}

pub open spec fn payload_error(desc: Seq<char>) -> Seq<char> {
    "Failed to parse message data: "@ + desc
}

pub open spec fn send_error() -> Seq<char> {
    "Failed to send message"@
}

/// The state after an inbound frame of known kind.
pub open spec fn step_known(
    s: ChatView,
    kind: MsgTypes,
    items: Option<Vec<String>>,
    data: Option<Payload>,
) -> ChatView {
    match kind {
        MsgTypes::Users => ChatView {
            roster: roster_of(items_of(items)),
            phase: Phase::Joined,
            last_error: None,
            ..s
        },
        MsgTypes::Message => match data {
            None => s,
            Some(p) => match p.as_message {
                Ok(m) => ChatView { transcript: s.transcript.push(m@), ..s },
                Err(e) => ChatView { last_error: Some(payload_error(e@)), ..s },
            },
        },
        MsgTypes::Error => ChatView {
            last_error: match data {
                Some(p) => Some(p.text@),
                None => None,
            },
            phase: Phase::Disconnected,
            ..s
        },
        MsgTypes::Register => s,
    }
}

/// The state after one inbound frame.
pub open spec fn step(s: ChatView, f: Result<RawFrame, String>) -> ChatView {
    match f {
        Err(d) => ChatView { last_error: Some(frame_error(d@)), ..s },
        Ok(raw) => match raw_kind(raw) {
            None => ChatView { last_error: Some(unknown_kind_error()), ..s },
            Some(k) => step_known(s, k, raw.data_array, raw.data),
        },
    }
}

/// The state after a sequence of inbound frames, in order.
pub open spec fn run(s: ChatView, frames: Seq<Result<RawFrame, String>>) -> ChatView
    decreases frames.len(),
{
    if frames.len() == 0 {
        s
    } else {
        step(run(s, frames.drop_last()), frames.last())
    }
}

/// What submitting `draft` hands back: nothing when it is blank, else the
/// message frame that carries it.
pub open spec fn submitted(draft: Seq<char>, r: Option<String>) -> bool {
    if is_blank(draft) {
        r is None
    } else {
        r matches Some(f) && f@ == frame_text(MsgTypes::Message, Some(draft), None)
    }
}

/// Unicode white space, as `char::is_whitespace` documents it.
pub open spec fn is_ws(c: char) -> bool {
    c == ' ' || ('\t' <= c && c <= '\r') || c == '\u{85}' || c == '\u{A0}' || c == '\u{1680}'
        || ('\u{2000}' <= c && c <= '\u{200A}') || c == '\u{2028}' || c == '\u{2029}'
        || c == '\u{202F}' || c == '\u{205F}' || c == '\u{3000}'
}

/// Empty, or white space only.
pub open spec fn is_blank(s: Seq<char>) -> bool {
    forall|i: int| 0 <= i < s.len() ==> is_ws(#[trigger] s[i])
}

pub fn is_whitespace(c: char) -> (r: bool)
    ensures
        r == is_ws(c),
{
    c == ' ' || ('\t' <= c && c <= '\r') || c == '\u{85}' || c == '\u{A0}' || c == '\u{1680}'
        || ('\u{2000}' <= c && c <= '\u{200A}') || c == '\u{2028}' || c == '\u{2029}'
        || c == '\u{202F}' || c == '\u{205F}' || c == '\u{3000}'
}

pub fn blank(s: &str) -> (r: bool)
    ensures
        r == is_blank(s@),
{
    let n = s.unicode_len();
    let mut i: usize = 0;
    while i < n
        invariant
            n == s@.len(),
            i <= n,
            forall|j: int| 0 <= j < i ==> is_ws(#[trigger] s@[j]),
        decreases n - i,
    {
        if !is_whitespace(s.get_char(i)) {
            return false;
        }
        i = i + 1;
    }
    true
}

/// The avatar address of a participant.
pub fn avatar_url(name: &str) -> (r: String)
    ensures
        r@ == avatar_of(name@),
{
    let mut out = String::from_str("https://avatars.dicebear.com/api/adventurer-neutral/");
    out.append(name);
    out.append(".svg");
    out
}

fn profiles(names: &Vec<String>) -> (r: Vec<UserProfile>)
    ensures
        r@.map_values(|u: UserProfile| u@) == roster_of(strings_view(names@)),
{
    let mut out: Vec<UserProfile> = Vec::new();
    let mut i: usize = 0;
    while i < names.len()
        invariant
            i <= names@.len(),
            out@.len() == i,
            forall|j: int| 0 <= j < i ==> (#[trigger] out@[j])@ == profile_of(names@[j]@),
        decreases names.len() - i,
    {
        let name = names[i].clone();
        let avatar = avatar_url(name.as_str());
        out.push(UserProfile { name, avatar, is_online: true });
        i = i + 1;
    }
    assert(out@.map_values(|u: UserProfile| u@) =~= roster_of(strings_view(names@)));
    out
}

fn prefixed(prefix: &str, desc: &str) -> (r: String)
    ensures
        r@ == prefix@ + desc@,
{
    let mut out = String::from_str(prefix);
    out.append(desc);
    out
}

impl Chat {
    pub open spec fn fresh(identity: Seq<char>) -> ChatView {
        ChatView {
            identity,
            roster: Seq::empty(),
            transcript: Seq::empty(),
            phase: Phase::Disconnected,
            last_error: None,
            draft: Seq::empty(),
        }
    }

    /// A new session for `identity`, with the registration frame to send.
    /// The session is `Connecting` until a roster arrives.
    pub fn create(identity: String) -> (r: Result<(Chat, String), ConfigError>)
        ensures
            identity@.len() == 0 <==> r == Err::<(Chat, String), ConfigError>(ConfigError::EmptyIdentity),
            r matches Ok((c, frame)) ==> c@ == (ChatView { phase: Phase::Connecting, ..Chat::fresh(identity@) })
                && frame@ == frame_text(MsgTypes::Register, Some(identity@), None),
    {
        if identity.unicode_len() == 0 {
            return Err(ConfigError::EmptyIdentity);
        }
        let mut c = Chat {
            identity,
            users: Vec::new(),
            messages: Vec::new(),
            phase: Phase::Disconnected,
            error_message: None,
            input_value: String::new(),
        };
        let frame = c.register();
        proof {
            assert(c@.roster =~= Seq::<ProfileView>::empty());
            assert(c@.transcript =~= Seq::<MessageView>::empty());
        }
        Ok((c, frame))
    }

    /// Builds the registration frame again and enters `Connecting`.
    pub fn register(&mut self) -> (r: String)
        ensures
            final(self)@ == (ChatView { phase: Phase::Connecting, ..old(self)@ }),
            r@ == frame_text(MsgTypes::Register, Some(old(self)@.identity), None),
    {
        self.phase = Phase::Connecting;
        encode(MsgTypes::Register, Some(self.identity.as_str()), None)
    }

    /// The registration frame could not be sent.
    pub fn registration_failed(&mut self)
        ensures
            final(self)@ == (ChatView { phase: Phase::Disconnected, ..old(self)@ }),
    {
        self.phase = Phase::Disconnected;
    }

    /// Folds one inbound frame into the state.
    pub fn handle_frame(&mut self, f: Result<RawFrame, String>)
        ensures
            final(self)@ == step(old(self)@, f),
    {
        match f {
            Err(d) => {
                self.error_message = Some(prefixed("Failed to parse server message: ", d.as_str()));
            },
            Ok(raw) => {
                let ghost g = raw;
                match classify(raw) {
                    Err(_) => {
                        self.error_message = Some(
                            String::from_str("Failed to parse server message: unknown message type"),
                        );
                    },
                    Ok(env) => {
                        assert(raw_kind(g) == Some(env.kind));
                        self.apply(env);
                    },
                }
            },
        }
    }

    /// Folds a frame of known kind into the state.
    fn apply(&mut self, env: Envelope)
        ensures
            final(self)@ == step_known(old(self)@, env.kind, env.items, env.payload),
    {
        match env.kind {
            MsgTypes::Users => {
                let users = match &env.items {
                    Some(v) => profiles(v),
                    None => Vec::new(),
                };
                proof {
                    if env.items is None {
                        assert(users@.map_values(|u: UserProfile| u@) =~= roster_of(Seq::empty()));
                    }
                }
                self.users = users;
                self.phase = Phase::Joined;
                self.error_message = None;
            },
            MsgTypes::Message => {
                match env.payload {
                    None => {},
                    Some(p) => match p.as_message {
                        Ok(m) => {
                            self.messages.push(m);
                            proof {
                                assert(self@.transcript =~= old(self)@.transcript.push(m@));
                            }
                        },
                        Err(e) => {
                            self.error_message = Some(prefixed("Failed to parse message data: ", e.as_str()));
                        },
                    },
                }
            },
            MsgTypes::Error => {
                self.error_message = match env.payload {
                    Some(p) => Some(p.text),
                    None => None,
                };
                self.phase = Phase::Disconnected;
            },
            MsgTypes::Register => {},
        }
    }

    /// Replaces the draft.
    pub fn update_draft(&mut self, text: String)
        ensures
            final(self)@ == (ChatView { draft: text@, ..old(self)@ }),
    {
        self.input_value = text;
    }

    /// The frame that carries the draft, when the draft is not blank. The
    /// draft stays until `message_sent` reports the outcome of the send.
    pub fn submit(&self) -> (r: Option<String>)
        ensures
            is_blank(self@.draft) <==> r is None,
            r matches Some(f) ==> f@ == frame_text(MsgTypes::Message, Some(self@.draft), None),
    {
        if blank(self.input_value.as_str()) {
            None
        } else {
            Some(encode(MsgTypes::Message, Some(self.input_value.as_str()), None))
        }
    }

    /// Records the outcome of sending the draft: on success the draft is
    /// cleared; on failure it is kept and the failure becomes the last error.
    pub fn message_sent(&mut self, delivered: bool)
        ensures
            delivered ==> final(self)@ == (ChatView { draft: Seq::empty(), ..old(self)@ }),
            !delivered ==> final(self)@ == (ChatView { last_error: Some(send_error()), ..old(self)@ }),
    {
        if delivered {
            self.input_value = String::new();
        } else {
            self.error_message = Some(String::from_str("Failed to send message"));
        }
    }

    /// Handles one event; returns the frame to send, if any.
    pub fn update(&mut self, msg: Msg) -> (r: Option<String>)
        ensures
            match msg {
                Msg::HandleMsg(f) => final(self)@ == step(old(self)@, f) && r is None,
                Msg::UpdateInput(v) => final(self)@ == (ChatView { draft: v@, ..old(self)@ }) && r is None,
                Msg::SubmitMessage => final(self)@ == old(self)@ && submitted(old(self)@.draft, r),
                Msg::OnKeyPress(k) => final(self)@ == old(self)@ && (if k@ == "Enter"@ {
                    submitted(old(self)@.draft, r)
                } else {
                    r is None
                }),
            },
    {
        match msg {
            Msg::HandleMsg(f) => {
                self.handle_frame(f);
                None
            },
            Msg::UpdateInput(v) => {
                self.update_draft(v);
                None
            },
            Msg::SubmitMessage => self.submit(),
            Msg::OnKeyPress(k) => {
                if str_eq(k.as_str(), "Enter") {
                    self.submit()
                } else {
                    None
                }
            },
        }
    }

    pub fn users(&self) -> (r: &Vec<UserProfile>)
        ensures
            r@.map_values(|u: UserProfile| u@) == self@.roster,
    {
        &self.users
    }

    pub fn messages(&self) -> (r: &Vec<ChatMessage>)
        ensures
            r@.map_values(|m: ChatMessage| m@) == self@.transcript,
    {
        &self.messages
    }

    pub fn is_connected(&self) -> (r: bool)
        ensures
            r == (self@.phase == Phase::Joined),
    {
        self.phase == Phase::Joined
    }

    pub fn phase(&self) -> (r: Phase)
        ensures
            r == self@.phase,
    {
        self.phase
    }

    pub fn error_message(&self) -> (r: &Option<String>)
        ensures
            opt_view(*r) == self@.last_error,
    {
        &self.error_message
    }

    pub fn input_value(&self) -> (r: &str)
        ensures
            r@ == self@.draft,
    {
        self.input_value.as_str()
    }

    pub fn identity(&self) -> (r: &str)
        ensures
            r@ == self@.identity,
    {
        self.identity.as_str()
    }
}

/// Whether `f` is a well-formed `users` frame.
pub open spec fn is_users_frame(f: Result<RawFrame, String>) -> bool {
    f matches Ok(raw) && raw_kind(raw) == Some(MsgTypes::Users)
}

/// The transcript entry a frame adds: a `message` frame whose nested payload
/// reads as a chat message.
pub open spec fn message_of(f: Result<RawFrame, String>) -> Option<MessageView> {
    match f {
        Ok(raw) => if raw_kind(raw) == Some(MsgTypes::Message) {
            match raw.data {
                Some(p) => match p.as_message {
                    Ok(m) => Some(m@),
                    Err(_) => None,
                },
                None => None,
            }
        } else {
            None
        },
        Err(_) => None,
    }
}

/// The transcript entries a sequence of frames adds, in arrival order.
pub open spec fn messages_of(frames: Seq<Result<RawFrame, String>>) -> Seq<MessageView>
    decreases frames.len(),
{
    if frames.len() == 0 {
        Seq::empty()
    } else {
        messages_of(frames.drop_last()) + match message_of(frames.last()) {
            Some(m) => seq![m],
            None => Seq::empty(),
        }
    }
}

/// After any sequence of `users` frames the roster is exactly the last
/// frame's names, in order, each online with its derived avatar, whatever
/// the roster was before; the session is joined.
pub proof fn lemma_roster_is_last_users_frame(s: ChatView, frames: Seq<Result<RawFrame, String>>)
    requires
        frames.len() > 0,
        forall|i: int| 0 <= i < frames.len() ==> is_users_frame(#[trigger] frames[i]),
    ensures
        run(s, frames).roster == roster_of(items_of(frames.last()->Ok_0.data_array)),
        run(s, frames).phase == Phase::Joined,
        run(s, frames).last_error is None,
{
    assert(is_users_frame(frames[frames.len() - 1]));
}

/// The transcript grows only by appending, in arrival order, the chat message
/// of each `message` frame whose nested payload is valid.
pub proof fn lemma_transcript_appends(s: ChatView, frames: Seq<Result<RawFrame, String>>)
    ensures
        run(s, frames).transcript == s.transcript + messages_of(frames),
    decreases frames.len(),
{
    if frames.len() == 0 {
        assert(s.transcript + messages_of(frames) =~= s.transcript);
    } else {
        lemma_transcript_appends(s, frames.drop_last());
        let prev = run(s, frames.drop_last());
        let f = frames.last();
        match message_of(f) {
            Some(m) => {
                assert(step(prev, f).transcript == prev.transcript.push(m));
                assert(s.transcript + messages_of(frames) =~= (s.transcript + messages_of(
                    frames.drop_last(),
                )).push(m));
            },
            None => {
                assert(step(prev, f).transcript == prev.transcript);
                assert(s.transcript + messages_of(frames) =~= s.transcript + messages_of(
                    frames.drop_last(),
                ));
            },
        }
    }
}

/// When every frame is a `message` frame with a valid nested payload, each
/// adds exactly one entry: the transcript grows by the number of frames.
pub proof fn lemma_valid_messages_all_kept(frames: Seq<Result<RawFrame, String>>)
    requires
        forall|i: int| 0 <= i < frames.len() ==> (#[trigger] message_of(frames[i])) is Some,
    ensures
        messages_of(frames).len() == frames.len(),
        forall|i: int| 0 <= i < frames.len() ==> messages_of(frames)[i] == message_of(frames[i])->Some_0,
    decreases frames.len(),
{
    if frames.len() > 0 {
        let init = frames.drop_last();
        assert forall|i: int| 0 <= i < init.len() implies (#[trigger] message_of(init[i])) is Some by {
            assert(init[i] == frames[i]);
        }
        lemma_valid_messages_all_kept(init);
        assert(message_of(frames[frames.len() - 1]) is Some);
        assert forall|i: int| 0 <= i < frames.len() implies messages_of(frames)[i] == message_of(
            frames[i],
        )->Some_0 by {
            if i < init.len() {
                assert(init[i] == frames[i]);
            }
        }
    }
}

/// A `message` frame whose nested payload is invalid leaves the transcript
/// as it was and records the payload error.
pub proof fn lemma_bad_payload_recorded(s: ChatView, f: Result<RawFrame, String>)
    requires
        f is Ok,
        raw_kind(f->Ok_0) == Some(MsgTypes::Message),
        f->Ok_0.data is Some,
        f->Ok_0.data->Some_0.as_message is Err,
    ensures
        step(s, f).transcript == s.transcript,
        step(s, f).last_error == Some(payload_error(f->Ok_0.data->Some_0.as_message->Err_0@)),
{
}

/// Delivering the same `users` frame twice gives the state that delivering
/// it once gives.
pub proof fn lemma_users_idempotent(s: ChatView, f: Result<RawFrame, String>)
    requires
        is_users_frame(f),
    ensures
        step(step(s, f), f) == step(s, f),
{
}

} // verus!
