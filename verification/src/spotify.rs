//! Spotify share links and the matching of Spotify tracks to videos.
use vstd::prelude::*;
use crate::error::ResonateError;
use crate::music::opt_view;
use crate::text::{
    chars_of, has_utf8_len, push_str, split_chars, split_seq, string_of, trim_chars, trim_spec,
    utf8_len, views_of,
};

verus! {

/// The playlist id in a share link such as
/// `https://open.spotify.com/playlist/<id>?si=...`: the fifth piece between
/// slashes, up to its first `?`, when that takes exactly 22 bytes.
pub open spec fn playlist_id_spec(url: Seq<char>) -> Option<Seq<char>> {
    let parts = split_seq(url, '/');
    if parts.len() > 4 {
        let id = split_seq(parts[4], '?')[0];
        if utf8_len(id) == 22 {
            Some(id)
        } else {
            None
        }
    } else {
        None
    }
}

/// The playlist id in a Spotify share link.
pub fn extract_spotify_playlist_id(url: String) -> (r: Option<String>)
    ensures
        opt_view(r) == playlist_id_spec(url@),
{
    let cs = chars_of(url.as_str());
    let parts = split_chars(&cs, '/');
    assert(views_of(parts@).len() == parts@.len());
    if parts.len() > 4 {
        let pieces = split_chars(&parts[4], '?');
        assert(views_of(parts@)[4] == parts@[4]@);
        assert(views_of(pieces@)[0] == pieces@[0]@);
        let id = &pieces[0];
        if has_utf8_len(id, 22) {
            Some(string_of(id))
        } else {
            None
        }
    } else {
        None
    }
}

/// The playlist reference to look up: a text of 11 bytes is taken as it
/// stands; otherwise the id in the share link, or the text itself when it
/// holds none.
pub open spec fn playlist_reference_spec(uri: Seq<char>) -> Seq<char> {
    if utf8_len(uri) != 11 {
        match playlist_id_spec(uri) {
            Some(id) => id,
            None => uri,
        }
    } else {
        uri
    }
}

/// The playlist reference to look up for what the user entered.
pub fn playlist_reference(uri: String) -> (r: String)
    ensures
        r@ == playlist_reference_spec(uri@),
{
    let cs = chars_of(uri.as_str());
    if !has_utf8_len(&cs, 11) {
        match extract_spotify_playlist_id(uri.clone()) {
            Some(id) => id,
            None => uri,
        }
    } else {
        uri
    }
}

/// The texts of a list of strings joined by single spaces.
pub open spec fn join_spaced(v: Seq<Seq<char>>) -> Seq<char>
    decreases v.len(),
{
    if v.len() == 0 {
        Seq::empty()
    } else if v.len() == 1 {
        v[0]
    } else {
        join_spaced(v.drop_last()) + seq![' '] + v.last()
    }
}

/// The names of a track's artists joined by spaces.
pub fn join_artists(names: &Vec<String>) -> (r: String)
    ensures
        r@ == join_spaced(names@.map_values(|s: String| s@)),
{
    let ghost v = names@.map_values(|s: String| s@);
    let mut r = String::new();
    let mut i: usize = 0;
    while i < names.len()
        invariant
            i <= names.len(),
            v == names@.map_values(|s: String| s@),
            r@ == join_spaced(v.take(i as int)),
        decreases names.len() - i,
    {
        assert(v.take(i + 1).drop_last() =~= v.take(i as int));
        assert(v.take(i + 1).last() == names@[i as int]@);
        if i > 0 {
            push_str(&mut r, " ");
        }
        proof { reveal_strlit(" "); }
        push_str(&mut r, names[i].as_str());
        assert(r@ =~= join_spaced(v.take(i + 1)));
        i = i + 1;
    }
    assert(v.take(names.len() as int) =~= v);
    r
}

/// The search that finds the video of a track: the first result for its
/// name and artists.
pub open spec fn track_search_spec(name: Seq<char>, artists: Seq<char>) -> Seq<char> {
    "ytsearch1:"@ + name + seq![' '] + artists
}

/// The search text handed to the downloader to find a track's video.
pub fn track_search(name: &String, artists: &String) -> (r: String)
    ensures
        r@ == track_search_spec(name@, artists@),
{
    let mut r = String::new();
    push_str(&mut r, "ytsearch1:");
    push_str(&mut r, name.as_str());
    push_str(&mut r, " ");
    push_str(&mut r, artists.as_str());
    proof { reveal_strlit(" "); }
    assert(r@ =~= track_search_spec(name@, artists@));
    r
}

/// The video id in the first line the search printed: the line without
/// surrounding white space, which must take 11 bytes.
pub open spec fn video_id_spec(line: Option<Seq<char>>) -> Result<Seq<char>, ResonateError> {
    match line {
        None => Err(ResonateError::STDOUTError),
        Some(l) => if utf8_len(trim_spec(l)) == 11 {
            Ok(trim_spec(l))
        } else {
            Err(ResonateError::STDOUTError)
        },
    }
}

/// The video id in the first line of the search's output; `None` when the
/// search printed nothing.
pub fn video_id_from_output(line: Option<String>) -> (r: Result<String, ResonateError>)
    ensures
        match r {
            Ok(id) => video_id_spec(opt_view(line)) == Ok::<Seq<char>, ResonateError>(id@),
            Err(e) => video_id_spec(opt_view(line)) == Err::<Seq<char>, ResonateError>(e),
        },
{
    match line {
        None => Err(ResonateError::STDOUTError),
        Some(l) => {
            let cs = chars_of(l.as_str());
            let t = trim_chars(&cs);
            if has_utf8_len(&t, 11) {
                Ok(string_of(&t))
            } else {
                Err(ResonateError::STDOUTError)
            }
        },
    }
}

/// A message from the task that reads a playlist to the stream that hands
/// its tracks on.
pub enum StreamMessage<T> {
    /// The task has stopped.
    Done,
    /// A track of the playlist.
    Result(T),
    /// The task holds the stream's waker.
    WakerReceived,
    /// The playlist's name and number of tracks.
    PlaylistName(String, usize),
    /// The link named no playlist.
    InvalidID,
    /// A message meant for the task itself.
    Other,
}

/// What the stream hands on.
pub enum SpotifyEmission<T> {
    Item(T),
    Name(String, usize),
    IDFailure,
}

/// What one message makes of the stream's poll.
pub enum StreamPoll<T> {
    /// Hand this on.
    Emit(SpotifyEmission<T>),
    /// The stream has ended.
    End,
    /// Read the next message.
    Continue,
}

/// What the stream remembers, as plain values.
pub struct StreamModel {
    pub waker_received: bool,
    pub result_count: nat,
    pub playlist_name: Seq<char>,
    pub has_streamed_result_count: bool,
}

/// A message, without the track it carries.
pub enum MessageKind {
    Done,
    Result,
    WakerReceived,
    PlaylistName(Seq<char>, usize),
    InvalidID,
    Other,
}

/// What a poll hands on, without the track.
pub enum PollKind {
    Item,
    Name(Seq<char>, nat),
    IDFailure,
    End,
    Continue,
}

/// The kind of a message.
pub open spec fn message_kind<T>(m: StreamMessage<T>) -> MessageKind {
    match m {
        StreamMessage::Done => MessageKind::Done,
        StreamMessage::Result(_) => MessageKind::Result,
        StreamMessage::WakerReceived => MessageKind::WakerReceived,
        StreamMessage::PlaylistName(n, c) => MessageKind::PlaylistName(n@, c),
        StreamMessage::InvalidID => MessageKind::InvalidID,
        StreamMessage::Other => MessageKind::Other,
    }
}

/// The kind of a poll's result.
pub open spec fn poll_kind<T>(p: StreamPoll<T>) -> PollKind {
    match p {
        StreamPoll::Emit(SpotifyEmission::Item(_)) => PollKind::Item,
        StreamPoll::Emit(SpotifyEmission::Name(n, c)) => PollKind::Name(n@, c as nat),
        StreamPoll::Emit(SpotifyEmission::IDFailure) => PollKind::IDFailure,
        StreamPoll::End => PollKind::End,
        StreamPoll::Continue => PollKind::Continue,
    }
}

/// What one message does to the stream and what the poll hands on.
pub open spec fn stream_step(m: StreamModel, msg: MessageKind) -> (StreamModel, PollKind) {
    match msg {
        MessageKind::Done => if m.has_streamed_result_count {
            (m, PollKind::End)
        } else {
            (
                StreamModel { has_streamed_result_count: true, ..m },
                PollKind::Name(m.playlist_name, m.result_count),
            )
        },
        MessageKind::Result => (StreamModel { result_count: m.result_count + 1, ..m }, PollKind::Item),
        MessageKind::WakerReceived => (StreamModel { waker_received: true, ..m }, PollKind::Continue),
        MessageKind::PlaylistName(name, size) => (
            StreamModel { playlist_name: name, ..m },
            PollKind::Name(name, size as nat),
        ),
        MessageKind::InvalidID => (m, PollKind::IDFailure),
        MessageKind::Other => (m, PollKind::Continue),
    }
}

/// The stream after a sequence of messages, and what its polls handed on.
pub open spec fn stream_run(m: StreamModel, msgs: Seq<MessageKind>) -> (StreamModel, Seq<PollKind>)
    decreases msgs.len(),
{
    if msgs.len() == 0 {
        (m, Seq::empty())
    } else {
        let (m1, out) = stream_run(m, msgs.drop_last());
        let (m2, p) = stream_step(m1, msgs.last());
        (m2, out.push(p))
    }
}

/// The number of tracks among what was handed on.
pub open spec fn item_count(polls: Seq<PollKind>) -> nat
    decreases polls.len(),
{
    if polls.len() == 0 {
        0
    } else {
        item_count(polls.drop_last()) + if polls.last() is Item {
            1nat
        } else {
            0nat
        }
    }
}

/// The state of a new stream.
pub open spec fn fresh_stream() -> StreamModel {
    StreamModel {
        waker_received: false,
        result_count: 0,
        playlist_name: Seq::empty(),
        has_streamed_result_count: false,
    }
}

/// Before the task stops, the stream's count is the number of tracks it
/// handed on.
pub proof fn lemma_count_matches(msgs: Seq<MessageKind>)
    requires
        forall|i: int| 0 <= i < msgs.len() ==> !(#[trigger] msgs[i] is Done),
    ensures
        stream_run(fresh_stream(), msgs).0.result_count == item_count(stream_run(fresh_stream(), msgs).1),
        !stream_run(fresh_stream(), msgs).0.has_streamed_result_count,
    decreases msgs.len(),
{
    if msgs.len() > 0 {
        let init = msgs.drop_last();
        assert forall|i: int| 0 <= i < init.len() implies !(#[trigger] init[i] is Done) by {
            assert(init[i] == msgs[i]);
        }
        lemma_count_matches(init);
        assert(!(msgs[msgs.len() - 1] is Done));
        let out = stream_run(fresh_stream(), msgs).1;
        assert(out.drop_last() == stream_run(fresh_stream(), init).1);
    }
}

/// When the task stops, the stream hands on the playlist's name with the
/// number of tracks it handed on; at the next stop it ends.
pub proof fn law_final_count(msgs: Seq<MessageKind>)
    requires
        forall|i: int| 0 <= i < msgs.len() ==> !(#[trigger] msgs[i] is Done),
    ensures
        stream_run(fresh_stream(), msgs.push(MessageKind::Done)).1.last() == PollKind::Name(
            stream_run(fresh_stream(), msgs).0.playlist_name,
            item_count(stream_run(fresh_stream(), msgs).1),
        ),
        stream_run(fresh_stream(), msgs.push(MessageKind::Done).push(MessageKind::Done)).1.last()
            == PollKind::End,
{
    lemma_count_matches(msgs);
    assert(msgs.push(MessageKind::Done).drop_last() == msgs);
    assert(msgs.push(MessageKind::Done).push(MessageKind::Done).drop_last() == msgs.push(MessageKind::Done));
}

/// The number of tracks among a sequence of messages.
pub open spec fn result_messages(msgs: Seq<MessageKind>) -> nat
    decreases msgs.len(),
{
    if msgs.len() == 0 {
        0
    } else {
        result_messages(msgs.drop_last()) + if msgs.last() is Result {
            1nat
        } else {
            0nat
        }
    }
}

/// The name the last playlist-name message of a sequence carries, or the
/// empty name when there is none.
pub open spec fn last_name(msgs: Seq<MessageKind>) -> Seq<char>
    decreases msgs.len(),
{
    if msgs.len() == 0 {
        Seq::empty()
    } else {
        match msgs.last() {
            MessageKind::PlaylistName(n, _) => n,
            _ => last_name(msgs.drop_last()),
        }
    }
}

/// Running the messages of `a` and then those of `b` is running `a + b`.
pub proof fn lemma_run_append(m: StreamModel, a: Seq<MessageKind>, b: Seq<MessageKind>)
    ensures
        stream_run(m, a + b).0 == stream_run(stream_run(m, a).0, b).0,
        stream_run(m, a + b).1 == stream_run(m, a).1 + stream_run(stream_run(m, a).0, b).1,
    decreases b.len(),
{
    if b.len() == 0 {
        assert(a + b =~= a);
        assert(stream_run(m, a).1 + Seq::<PollKind>::empty() =~= stream_run(m, a).1);
    } else {
        lemma_run_append(m, a, b.drop_last());
        assert((a + b).drop_last() =~= a + b.drop_last());
        assert((a + b).last() == b.last());
        let mid = stream_run(m, a).0;
        assert(stream_run(m, a + b).1 =~= stream_run(m, a).1 + stream_run(mid, b).1);
    }
}

/// A run hands on one thing per message.
pub proof fn lemma_run_len(m: StreamModel, msgs: Seq<MessageKind>)
    ensures
        stream_run(m, msgs).1.len() == msgs.len(),
    decreases msgs.len(),
{
    if msgs.len() > 0 {
        lemma_run_len(m, msgs.drop_last());
    }
}

/// What the `i`-th poll of a run hands on is what the `i`-th message does
/// to the stream as the earlier messages left it.
pub proof fn lemma_run_index(m: StreamModel, msgs: Seq<MessageKind>, i: int)
    requires
        0 <= i < msgs.len(),
    ensures
        stream_run(m, msgs).1[i] == stream_step(stream_run(m, msgs.take(i)).0, msgs[i]).1,
    decreases msgs.len(),
{
    lemma_run_len(m, msgs.drop_last());
    if i < msgs.len() - 1 {
        lemma_run_index(m, msgs.drop_last(), i);
        assert(msgs.drop_last().take(i) =~= msgs.take(i));
    } else {
        assert(msgs.take(i) =~= msgs.drop_last());
    }
}

/// Before the task stops, the stream counts the tracks among the messages
/// and remembers the last playlist name.
pub proof fn lemma_run_state(msgs: Seq<MessageKind>)
    requires
        forall|i: int| 0 <= i < msgs.len() ==> !(#[trigger] msgs[i] is Done),
    ensures
        stream_run(fresh_stream(), msgs).0.result_count == result_messages(msgs),
        stream_run(fresh_stream(), msgs).0.playlist_name == last_name(msgs),
        !stream_run(fresh_stream(), msgs).0.has_streamed_result_count,
    decreases msgs.len(),
{
    if msgs.len() > 0 {
        let init = msgs.drop_last();
        assert forall|i: int| 0 <= i < init.len() implies !(#[trigger] init[i] is Done) by {
            assert(init[i] == msgs[i]);
        }
        lemma_run_state(init);
        assert(!(msgs[msgs.len() - 1] is Done));
    }
}

/// Once the final count was handed on, every further stop ends the stream
/// and changes nothing.
pub proof fn lemma_after_count(m: StreamModel, later: Seq<MessageKind>)
    requires
        m.has_streamed_result_count,
        forall|j: int| 0 <= j < later.len() ==> (#[trigger] later[j]) is Done,
    ensures
        stream_run(m, later).0 == m,
        forall|j: int| 0 <= j < later.len() ==> (#[trigger] stream_run(m, later).1[j]) is End,
    decreases later.len(),
{
    if later.len() > 0 {
        let init = later.drop_last();
        assert forall|j: int| 0 <= j < init.len() implies (#[trigger] init[j]) is Done by {
            assert(init[j] == later[j]);
        }
        lemma_after_count(m, init);
        assert(later[later.len() - 1] is Done);
        lemma_run_len(m, init);
        assert forall|j: int| 0 <= j < later.len() implies (#[trigger] stream_run(m, later).1[j]) is End by {
            if j < init.len() {
                assert(stream_run(m, later).1[j] == stream_run(m, init).1[j]);
            }
        }
    }
}

/// The whole stream: before the task stops, each track message hands on
/// exactly one track and every other message hands on no track, an invalid
/// link is reported, and a playlist name is handed on; when the task stops,
/// the last playlist name (or the empty name) is handed on with the number
/// of tracks; every stop after that ends the stream.
pub proof fn law_whole_stream(msgs: Seq<MessageKind>, later: Seq<MessageKind>)
    requires
        forall|i: int| 0 <= i < msgs.len() ==> !(#[trigger] msgs[i] is Done),
        forall|j: int| 0 <= j < later.len() ==> (#[trigger] later[j]) is Done,
    ensures
        stream_run(fresh_stream(), msgs).1.len() == msgs.len(),
        forall|i: int|
            0 <= i < msgs.len() ==> ((#[trigger] stream_run(fresh_stream(), msgs).1[i]) is Item
                <==> msgs[i] is Result),
        forall|i: int|
            0 <= i < msgs.len() && msgs[i] is InvalidID ==> (#[trigger] stream_run(fresh_stream(), msgs).1[i])
                is IDFailure,
        item_count(stream_run(fresh_stream(), msgs).1) == result_messages(msgs),
        stream_run(fresh_stream(), msgs.push(MessageKind::Done)).1.last() == PollKind::Name(
            last_name(msgs),
            result_messages(msgs),
        ),
        forall|j: int|
            0 <= j < later.len() ==> (#[trigger] stream_run(fresh_stream(), msgs.push(MessageKind::Done) + later).1[msgs.len() + 1 + j]) is End,
{
    let m0 = fresh_stream();
    lemma_run_len(m0, msgs);
    lemma_run_state(msgs);
    lemma_count_matches(msgs);
    assert forall|i: int| 0 <= i < msgs.len() implies ((#[trigger] stream_run(m0, msgs).1[i]) is Item <==> msgs[i] is Result) && (msgs[i] is InvalidID ==> stream_run(m0, msgs).1[i] is IDFailure) by {
        lemma_run_index(m0, msgs, i);
        assert(!(msgs[i] is Done));
    }
    assert(msgs.push(MessageKind::Done).drop_last() == msgs);
    let done = msgs.push(MessageKind::Done);
    let after = stream_run(m0, done).0;
    lemma_after_count(after, later);
    lemma_run_append(m0, done, later);
    lemma_run_len(m0, done);
    lemma_run_len(after, later);
    assert forall|j: int| 0 <= j < later.len() implies (#[trigger] stream_run(m0, done + later).1[msgs.len() + 1 + j]) is End by {
        assert(stream_run(m0, done + later).1[msgs.len() + 1 + j] == stream_run(after, later).1[j]);
    }
}

/// The plain values of a stream's state.
pub open spec fn stream_model(s: SpotifyStreamState) -> StreamModel {
    StreamModel {
        waker_received: s.waker_received,
        result_count: s.result_count as nat,
        playlist_name: s.playlist_name@,
        has_streamed_result_count: s.has_streamed_result_count,
    }
}

/// What the stream remembers between polls.
pub struct SpotifyStreamState {
    /// Whether the task has the stream's waker.
    pub waker_received: bool,
    /// How many tracks were handed on.
    pub result_count: usize,
    /// The playlist's name, once known.
    pub playlist_name: String,
    /// Whether the final count was handed on.
    pub has_streamed_result_count: bool,
}

impl SpotifyStreamState {
    /// The state of a new stream.
    pub fn new() -> (r: SpotifyStreamState)
        ensures
            !r.waker_received,
            r.result_count == 0,
            r.playlist_name@ == Seq::<char>::empty(),
            !r.has_streamed_result_count,
            stream_model(r) == fresh_stream(),
    {
        SpotifyStreamState {
            waker_received: false,
            result_count: 0,
            playlist_name: String::new(),
            has_streamed_result_count: false,
        }
    }

    /// Handles one message. When the task stops, the playlist's name and the
    /// number of tracks handed on are sent once, and the stream ends at the
    /// next stop; each track is handed on and counted; the name is
    /// remembered and handed on; an invalid link is reported.
    pub fn on_message<T>(&mut self, message: StreamMessage<T>) -> (r: StreamPoll<T>)
        requires
            message is Result ==> old(self).result_count < usize::MAX,
        ensures
            (stream_model(*final(self)), poll_kind(r)) == stream_step(stream_model(*old(self)), message_kind(message)),
            message matches StreamMessage::Result(t) ==> r == StreamPoll::Emit(SpotifyEmission::Item(t)),
    {
        match message {
            StreamMessage::Done => {
                if self.has_streamed_result_count {
                    StreamPoll::End
                } else {
                    self.has_streamed_result_count = true;
                    StreamPoll::Emit(SpotifyEmission::Name(self.playlist_name.clone(), self.result_count))
                }
            },
            StreamMessage::Result(t) => {
                self.result_count = self.result_count + 1;
                StreamPoll::Emit(SpotifyEmission::Item(t))
            },
            StreamMessage::WakerReceived => {
                self.waker_received = true;
                StreamPoll::Continue
            },
            StreamMessage::PlaylistName(name, size) => {
                self.playlist_name = name.clone();
                StreamPoll::Emit(SpotifyEmission::Name(name, size))
            },
            StreamMessage::InvalidID => StreamPoll::Emit(SpotifyEmission::IDFailure),
            StreamMessage::Other => StreamPoll::Continue,
        }
    }
}

} // verus!
