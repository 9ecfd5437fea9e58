//! Per-speaker accumulation of audio fragments for one session.
//!
//! Each speaker's fragments are kept in arrival order. A flush hands out
//! everything buffered so far and leaves the recorder empty, so no fragment
//! is delivered twice and none that arrived before the flush is lost.

use crate::text::{decimal, decimal_string};
use dashmap::DashMap;
use std::collections::HashMap;
use vstd::prelude::*;
use vstd::string::StringExecFns;

verus! {

#[verifier::external_type_specification]
#[verifier::external_body]
#[verifier::reject_recursive_types(K)]
#[verifier::reject_recursive_types(V)]
#[verifier::reject_recursive_types(S)]
pub struct ExDashMap<K, V, S>(DashMap<K, V, S>);

/// Why a recorder could not hand out audio.
#[derive(Debug)]
pub enum RecorderError {
    /// Writing recorded audio out failed; the text says why.
    Io(String),
    /// Nothing was buffered.
    NoData,
}

impl RecorderError {
    /// A human-readable description.
    pub fn message(&self) -> (r: String)
        ensures
            r@ == (match *self {
                RecorderError::Io(m) => "IO error: "@ + m@,
                RecorderError::NoData => "No audio data available"@,
            }),
    {
        match self {
            RecorderError::Io(m) => String::from_str("IO error: ").concat(m.as_str()),
            RecorderError::NoData => String::from_str("No audio data available"),
        }
    }
}

/// The byte contents of a sequence of fragments.
pub open spec fn frames_of(v: Seq<Vec<u8>>) -> Seq<Seq<u8>> {
    v.map_values(|f: Vec<u8>| f@)
}

/// One speaker's fragments, in arrival order.
pub struct UserAudioBuffer {
    pub opus_frames: Vec<Vec<u8>>,
    /// When the first fragment of this buffer arrived, in seconds since the epoch.
    pub start_time: u64,
}

impl UserAudioBuffer {
    pub open spec fn frames(&self) -> Seq<Seq<u8>> {
        frames_of(self.opus_frames@)
    }

    pub fn new(start_time: u64) -> (r: UserAudioBuffer)
        ensures
            r.frames() == Seq::<Seq<u8>>::empty(),
            r.start_time == start_time,
    {
        UserAudioBuffer { opus_frames: Vec::new(), start_time }
    }

    pub fn add_frame(&mut self, data: Vec<u8>)
        ensures
            final(self).frames() == old(self).frames().push(data@),
            final(self).start_time == old(self).start_time,
    {
        self.opus_frames.push(data);
        assert(self.frames() =~= old(self).frames().push(data@));
    }

    pub fn is_empty(&self) -> (r: bool)
        ensures
            r == (self.frames().len() == 0),
    {
        self.opus_frames.len() == 0
    }

    pub fn take_frames(&mut self) -> (r: Vec<Vec<u8>>)
        ensures
            frames_of(r@) == old(self).frames(),
            final(self).frames() == Seq::<Seq<u8>>::empty(),
            final(self).start_time == old(self).start_time,
    {
        let mut taken: Vec<Vec<u8>> = Vec::new();
        std::mem::swap(&mut taken, &mut self.opus_frames);
        assert(self.frames() =~= Seq::<Seq<u8>>::empty());
        taken
    }
}

/// What a map of buffers holds, by speaker.
pub uninterp spec fn buffer_table(m: DashMap<u64, UserAudioBuffer>) -> Map<u64, UserAudioBuffer>;

/// Relies on `DashMap::new`: a new map holds no entry. A `DashMap` always
/// holds finitely many entries.
#[verifier::external_body]
fn new_buffer_table() -> (r: DashMap<u64, UserAudioBuffer>)
    ensures
        buffer_table(r).dom() == Set::<u64>::empty(),
        buffer_table(r).dom().finite(),
{
    DashMap::new()
}

/// Relies on `DashMap::insert`: afterwards the key maps to the value, and the
/// value it had before, if any, is returned.
#[verifier::external_body]
fn table_insert(m: &mut DashMap<u64, UserAudioBuffer>, k: u64, v: UserAudioBuffer) -> (r: Option<
    UserAudioBuffer,
>)
    ensures
        buffer_table(*final(m)) == buffer_table(*old(m)).insert(k, v),
        buffer_table(*final(m)).dom().finite(),
        r == (if buffer_table(*old(m)).contains_key(k) {
            Some(buffer_table(*old(m))[k])
        } else {
            None
        }),
{
    m.insert(k, v)
}

/// Relies on `DashMap::remove`: afterwards the key is absent, and its entry,
/// if it had one, is returned.
#[verifier::external_body]
fn table_remove(m: &mut DashMap<u64, UserAudioBuffer>, k: u64) -> (r: Option<(u64, UserAudioBuffer)>)
    ensures
        buffer_table(*final(m)) == buffer_table(*old(m)).remove(k),
        buffer_table(*final(m)).dom().finite(),
        r == (if buffer_table(*old(m)).contains_key(k) {
            Some((k, buffer_table(*old(m))[k]))
        } else {
            None
        }),
{
    m.remove(&k)
}

/// Relies on `DashMap::iter`: it visits every entry of the map exactly once.
#[verifier::external_body]
fn table_keys(m: &DashMap<u64, UserAudioBuffer>) -> (r: Vec<u64>)
    ensures
        r@.no_duplicates(),
        r@.to_set() == buffer_table(*m).dom(),
{
    m.iter().map(|e| *e.key()).collect()
}

/// Relies on `DashMap::len`: the number of entries.
#[verifier::external_body]
fn table_len(m: &DashMap<u64, UserAudioBuffer>) -> (r: usize)
    ensures
        r == buffer_table(*m).len(),
{
    m.len()
}

/// Relies on `DashMap::clear`: afterwards the map holds no entry.
#[verifier::external_body]
fn table_clear(m: &mut DashMap<u64, UserAudioBuffer>)
    ensures
        buffer_table(*final(m)).dom() == Set::<u64>::empty(),
        buffer_table(*final(m)).dom().finite(),
{
    m.clear();
}

/// Relies on `SystemTime::now`: the current time in whole seconds since the
/// epoch, or `None` when the clock reads earlier than the epoch.
#[verifier::external_body]
fn unix_seconds_now() -> (r: Option<u64>) {
    std::time::SystemTime::now().duration_since(std::time::UNIX_EPOCH).ok().map(|d| d.as_secs())
}

/// `m` after one fragment from `speaker` is appended to that speaker's sequence.
pub open spec fn append_frame(m: Map<u64, Seq<Seq<u8>>>, speaker: u64, fragment: Seq<u8>) -> Map<
    u64,
    Seq<Seq<u8>>,
> {
    if m.contains_key(speaker) {
        m.insert(speaker, m[speaker].push(fragment))
    } else {
        m.insert(speaker, seq![fragment])
    }
}

/// `m` after a fragment arrives from the capture side: an empty fragment is
/// dropped.
pub open spec fn ingest_spec(m: Map<u64, Seq<Seq<u8>>>, speaker: u64, fragment: Seq<u8>) -> Map<
    u64,
    Seq<Seq<u8>>,
> {
    if fragment.len() == 0 {
        m
    } else {
        append_frame(m, speaker, fragment)
    }
}

/// The fragments of a snapshot, by speaker.
pub open spec fn snapshot_frames(m: Map<u64, Vec<Vec<u8>>>) -> Map<u64, Seq<Seq<u8>>> {
    m.map_values(|v: Vec<Vec<u8>>| frames_of(v@))
}

/// The little-endian bytes of the low 16 bits of `n`.
pub open spec fn le16(n: nat) -> Seq<u8> {
    seq![(n % 256) as u8, ((n / 256) % 256) as u8]
}

/// The stored form of a fragment sequence: each fragment preceded by its
/// length as a 16-bit little-endian number (the length modulo 65536).
pub open spec fn encoded(frames: Seq<Seq<u8>>) -> Seq<u8>
    decreases frames.len(),
{
    if frames.len() == 0 {
        Seq::empty()
    } else {
        encoded(frames.drop_last()) + le16(frames.last().len()) + frames.last()
    }
}

/// The name of the file that holds one speaker's audio from one flush.
pub open spec fn file_name_spec(session: u64, speaker: u64, flush_time: u64) -> Seq<char> {
    decimal(session as nat) + "_"@ + decimal(speaker as nat) + "_"@ + decimal(flush_time as nat)
        + ".opus"@
}

/// Writes fragments in their stored form.
pub fn encode_frames(frames: &Vec<Vec<u8>>) -> (r: Vec<u8>)
    ensures
        r@ == encoded(frames_of(frames@)),
{
    let mut out: Vec<u8> = Vec::new();
    let mut i: usize = 0;
    while i < frames.len()
        invariant
            i <= frames@.len(),
            out@ == encoded(frames_of(frames@.subrange(0, i as int))),
        decreases frames@.len() - i,
    {
        let frame = &frames[i];
        let len = frame.len();
        let lo = (len % 256) as u8;
        let hi = ((len / 256) % 256) as u8;
        let ghost before = out@;
        out.push(lo);
        out.push(hi);
        out.extend_from_slice(frame.as_slice());
        proof {
            let done = frames_of(frames@.subrange(0, i + 1));
            assert(done.drop_last() =~= frames_of(frames@.subrange(0, i as int)));
            assert(done.last() == frame@);
            assert(out@ =~= before + le16(frame@.len()) + frame@);
        }
        i = i + 1;
    }
    assert(frames@.subrange(0, i as int) =~= frames@);
    out
}

/// Collects every speaker's audio of one session.
pub struct UserRecorder {
    user_buffers: DashMap<u64, UserAudioBuffer>,
    temp_dir: String,
    session_timestamp: u64,
}

impl View for UserRecorder {
    type V = Map<u64, Seq<Seq<u8>>>;

    /// The buffered fragments, by speaker.
    closed spec fn view(&self) -> Map<u64, Seq<Seq<u8>>> {
        buffer_table(self.user_buffers).map_values(|b: UserAudioBuffer| b.frames())
    }
}

impl UserRecorder {
    /// Finitely many speakers have a buffer, and only speakers with at least
    /// one fragment.
    pub closed spec fn wf(&self) -> bool {
        &&& buffer_table(self.user_buffers).dom().finite()
        &&& forall|k: u64| #[trigger]
            buffer_table(self.user_buffers).contains_key(k) ==> buffer_table(
                self.user_buffers,
            )[k].frames().len() > 0
    }

    pub closed spec fn spec_session_timestamp(&self) -> u64 {
        self.session_timestamp
    }

    pub closed spec fn spec_temp_dir(&self) -> Seq<char> {
        self.temp_dir@
    }

    /// A recorder with nothing buffered, for a session that began at
    /// `session_timestamp`, whose files go under `temp_dir`.
    pub fn new(temp_dir: String, session_timestamp: u64) -> (r: UserRecorder)
        ensures
            r.wf(),
            r@ == Map::<u64, Seq<Seq<u8>>>::empty(),
            r.spec_session_timestamp() == session_timestamp,
            r.spec_temp_dir() == temp_dir@,
    {
        let r = UserRecorder { user_buffers: new_buffer_table(), temp_dir, session_timestamp };
        assert(r@ =~= Map::<u64, Seq<Seq<u8>>>::empty());
        r
    }

    pub fn session_timestamp(&self) -> (r: u64)
        ensures
            r == self.spec_session_timestamp(),
    {
        self.session_timestamp
    }

    pub fn temp_dir(&self) -> (r: &String)
        ensures
            r@ == self.spec_temp_dir(),
    {
        &self.temp_dir
    }

    /// Appends a fragment to a speaker's buffer, creating the buffer on first
    /// use; an empty fragment changes nothing.
    pub fn add_audio_data(&mut self, user_id: u64, opus_data: &[u8])
        requires
            old(self).wf(),
        ensures
            final(self).wf(),
            final(self)@ == ingest_spec(old(self)@, user_id, opus_data@),
            final(self)@.dom().finite(),
            final(self).spec_session_timestamp() == old(self).spec_session_timestamp(),
            final(self).spec_temp_dir() == old(self).spec_temp_dir(),
    {
        proof {
            assert(self@.dom() =~= buffer_table(self.user_buffers).dom());
        }
        if opus_data.len() == 0 {
            return ;
        }
        let data = vstd::slice::slice_to_vec(opus_data);
        let ghost old_table = buffer_table(self.user_buffers);
        let mut buffer = match table_remove(&mut self.user_buffers, user_id) {
            Some((_, b)) => b,
            None => {
                let now = match unix_seconds_now() {
                    Some(t) => t,
                    None => 0,
                };
                UserAudioBuffer::new(now)
            },
        };
        buffer.add_frame(data);
        table_insert(&mut self.user_buffers, user_id, buffer);
        proof {
            let t = buffer_table(self.user_buffers);
            assert(t =~= old_table.insert(user_id, buffer));
            assert(self@ =~= ingest_spec(old(self)@, user_id, opus_data@));
            assert(self@.dom() =~= t.dom());
        }
    }

    /// Takes in a fragment from the capture side; an empty fragment is ignored.
    pub fn add_opus_packet(&mut self, user_id: u64, opus_packet: &[u8])
        requires
            old(self).wf(),
        ensures
            final(self).wf(),
            final(self)@ == ingest_spec(old(self)@, user_id, opus_packet@),
            final(self)@.dom().finite(),
            final(self).spec_session_timestamp() == old(self).spec_session_timestamp(),
            final(self).spec_temp_dir() == old(self).spec_temp_dir(),
    {
        if opus_packet.len() == 0 {
            assert(self@.dom() =~= buffer_table(self.user_buffers).dom());
            return ;
        }
        self.add_audio_data(user_id, opus_packet);
    }

    /// Hands out every speaker's buffered fragments and leaves the recorder
    /// empty. Fails with `NoData` exactly when nothing was buffered.
    pub fn flush_audio(&mut self) -> (r: Result<HashMap<u64, Vec<Vec<u8>>>, RecorderError>)
        requires
            old(self).wf(),
        ensures
            final(self).wf(),
            final(self)@ == Map::<u64, Seq<Seq<u8>>>::empty(),
            final(self).spec_session_timestamp() == old(self).spec_session_timestamp(),
            final(self).spec_temp_dir() == old(self).spec_temp_dir(),
            match r {
                Ok(files) => snapshot_frames(files@) == old(self)@ && old(self)@ != Map::<
                    u64,
                    Seq<Seq<u8>>,
                >::empty() && forall|k: u64| #[trigger]
                    snapshot_frames(files@).contains_key(k) ==> snapshot_frames(files@)[k].len()
                        > 0,
                Err(e) => e is NoData && old(self)@ == Map::<u64, Seq<Seq<u8>>>::empty(),
            },
    {
        broadcast use vstd::std_specs::hash::group_hash_axioms;

        let keys = table_keys(&self.user_buffers);
        let ghost start = buffer_table(self.user_buffers);
        let ghost start_view = self@;
        let mut saved: HashMap<u64, Vec<Vec<u8>>> = HashMap::new();
        let mut i: usize = 0;
        proof {
            assert forall|k: u64| start.contains_key(k) implies keys@.contains(k) by {
                assert(keys@.to_set().contains(k));
            }
        }
        while i < keys.len()
            invariant
                i <= keys@.len(),
                keys@.no_duplicates(),
                keys@.to_set() == start.dom(),
                start_view == start.map_values(|b: UserAudioBuffer| b.frames()),
                forall|k: u64| #[trigger]
                    start.contains_key(k) ==> start[k].frames().len() > 0,
                forall|k: u64| #[trigger]
                    buffer_table(self.user_buffers).contains_key(k) <==> (start.contains_key(k)
                        && !keys@.subrange(0, i as int).contains(k)),
                forall|k: u64| #[trigger]
                    buffer_table(self.user_buffers).contains_key(k) ==> buffer_table(
                        self.user_buffers,
                    )[k] == start[k],
                forall|k: u64| #[trigger]
                    saved@.contains_key(k) <==> keys@.subrange(0, i as int).contains(k),
                forall|k: u64| #[trigger]
                    saved@.contains_key(k) ==> frames_of(saved@[k]@) == start[k].frames(),
                self.session_timestamp == old(self).session_timestamp,
                self.temp_dir == old(self).temp_dir,
            decreases keys@.len() - i,
        {
            let user_id = keys[i];
            assert(keys@.to_set().contains(user_id));
            assert(!keys@.subrange(0, i as int).contains(user_id)) by {
                if keys@.subrange(0, i as int).contains(user_id) {
                    let j = choose|j: int| 0 <= j < i && keys@.subrange(0, i as int)[j] == user_id;
                    assert(keys@[j] == keys@[i as int]);
                }
            }
            assert(buffer_table(self.user_buffers).contains_key(user_id));
            let removed = table_remove(&mut self.user_buffers, user_id);
            if let Some((_, mut buffer)) = removed {
                if !buffer.is_empty() {
                    let frames = buffer.take_frames();
                    saved.insert(user_id, frames);
                }
            }
            proof {
                let before = keys@.subrange(0, i as int);
                let after = keys@.subrange(0, i + 1);
                assert forall|k: u64| after.contains(k) <==> (before.contains(k) || k == user_id) by {
                    if after.contains(k) {
                        let j = choose|j: int| 0 <= j < after.len() && after[j] == k;
                        if j < i {
                            assert(before[j] == k);
                        }
                    }
                    if before.contains(k) {
                        let j = choose|j: int| 0 <= j < before.len() && before[j] == k;
                        assert(after[j] == k);
                    }
                    if k == user_id {
                        assert(after[i as int] == k);
                    }
                }
            }
            i = i + 1;
        }
        proof {
            assert(keys@.subrange(0, i as int) =~= keys@);
            assert(buffer_table(self.user_buffers) =~= Map::<u64, UserAudioBuffer>::empty());
            assert(self@ =~= Map::<u64, Seq<Seq<u8>>>::empty());
            assert(snapshot_frames(saved@) =~= start_view);
        }
        if saved.len() == 0 {
            proof {
                assert(saved@.dom() =~= Set::<u64>::empty()) by {
                    vstd::std_specs::hash::axiom_hashmap_view_finite_dom(saved);
                }
                assert(start_view =~= Map::<u64, Seq<Seq<u8>>>::empty());
            }
            return Err(RecorderError::NoData);
        }
        proof {
            assert(saved@.dom().len() > 0);
            if start_view == Map::<u64, Seq<Seq<u8>>>::empty() {
                let k = saved@.dom().choose();
                assert(saved@.dom().contains(k)) by {
                    vstd::std_specs::hash::axiom_hashmap_view_finite_dom(saved);
                }
                assert(start_view.contains_key(k));
            }
        }
        Ok(saved)
    }

    /// The name of the file for one speaker's audio from a flush at `flush_time`.
    pub fn file_name(&self, user_id: u64, flush_time: u64) -> (r: String)
        ensures
            r@ == file_name_spec(self.spec_session_timestamp(), user_id, flush_time),
    {
        let s = decimal_string(self.session_timestamp);
        let u = decimal_string(user_id);
        let t = decimal_string(flush_time);
        s.concat("_").concat(u.as_str()).concat("_").concat(t.as_str()).concat(".opus")
    }

    /// Drops everything buffered.
    pub fn clear(&mut self)
        requires
            old(self).wf(),
        ensures
            final(self).wf(),
            final(self)@ == Map::<u64, Seq<Seq<u8>>>::empty(),
            final(self).spec_session_timestamp() == old(self).spec_session_timestamp(),
            final(self).spec_temp_dir() == old(self).spec_temp_dir(),
    {
        table_clear(&mut self.user_buffers);
        assert(self@ =~= Map::<u64, Seq<Seq<u8>>>::empty());
    }

    /// Whether any audio is buffered.
    pub fn has_data(&self) -> (r: bool)
        requires
            self.wf(),
        ensures
            r == (self@ != Map::<u64, Seq<Seq<u8>>>::empty()),
    {
        let keys = table_keys(&self.user_buffers);
        proof {
            if keys@.len() == 0 {
                assert(buffer_table(self.user_buffers).dom() =~= Set::<u64>::empty()) by {
                    assert forall|k: u64| !buffer_table(self.user_buffers).dom().contains(k) by {
                        if buffer_table(self.user_buffers).dom().contains(k) {
                            assert(keys@.to_set().contains(k));
                        }
                    }
                }
                assert(self@ =~= Map::<u64, Seq<Seq<u8>>>::empty());
            } else {
                assert(keys@.to_set().contains(keys@[0]));
                assert(self@.contains_key(keys@[0]));
            }
        }
        keys.len() > 0
    }

    /// The number of speakers with buffered audio.
    pub fn user_count(&self) -> (r: usize)
        requires
            self.wf(),
        ensures
            r == self@.len(),
            self@.dom().finite(),
    {
        assert(self@.dom() =~= buffer_table(self.user_buffers).dom());
        table_len(&self.user_buffers)
    }
}

/// The buffered contents after capture events arrive one after another.
pub open spec fn ingest_all(m: Map<u64, Seq<Seq<u8>>>, events: Seq<(u64, Seq<u8>)>) -> Map<
    u64,
    Seq<Seq<u8>>,
>
    decreases events.len(),
{
    if events.len() == 0 {
        m
    } else {
        ingest_spec(ingest_all(m, events.drop_last()), events.last().0, events.last().1)
    }
}

/// The non-empty fragments that `speaker` sent, in arrival order.
pub open spec fn fragments_from(events: Seq<(u64, Seq<u8>)>, speaker: u64) -> Seq<Seq<u8>>
    decreases events.len(),
{
    if events.len() == 0 {
        Seq::empty()
    } else if events.last().0 == speaker && events.last().1.len() > 0 {
        fragments_from(events.drop_last(), speaker).push(events.last().1)
    } else {
        fragments_from(events.drop_last(), speaker)
    }
}

/// A speaker's sequence in `m`, empty when the speaker has none.
pub open spec fn frames_or_empty(m: Map<u64, Seq<Seq<u8>>>, speaker: u64) -> Seq<Seq<u8>> {
    if m.contains_key(speaker) {
        m[speaker]
    } else {
        Seq::empty()
    }
}

/// Starting from an empty recorder, whatever sequence of capture events
/// arrives, what a flush then hands out holds one entry for each speaker that
/// sent at least one non-empty fragment and no other, and each entry is that
/// speaker's fragments in arrival order.
pub proof fn lemma_flush_groups_fragments_by_speaker(events: Seq<(u64, Seq<u8>)>)
    ensures
        forall|k: u64| #[trigger]
            ingest_all(Map::empty(), events).contains_key(k) <==> fragments_from(events, k).len()
                > 0,
        forall|k: u64| #[trigger]
            ingest_all(Map::empty(), events).contains_key(k) ==> ingest_all(Map::empty(), events)[k]
                == fragments_from(events, k),
    decreases events.len(),
{
    if events.len() > 0 {
        let prev = events.drop_last();
        lemma_flush_groups_fragments_by_speaker(prev);
        let m0 = ingest_all(Map::empty(), prev);
        let m1 = ingest_all(Map::empty(), events);
        let (speaker, fragment) = events.last();
        assert(m1 == ingest_spec(m0, speaker, fragment));
        assert forall|k: u64| #[trigger] m1.contains_key(k) <==> fragments_from(events, k).len() > 0 by {
            if k == speaker && fragment.len() > 0 {
                assert(fragments_from(events, k) == fragments_from(prev, k).push(fragment));
            } else {
                assert(fragments_from(events, k) == fragments_from(prev, k));
            }
        }
        assert forall|k: u64| #[trigger] m1.contains_key(k) implies m1[k] == fragments_from(events, k) by {
            if k == speaker && fragment.len() > 0 {
                assert(fragments_from(events, k) == fragments_from(prev, k).push(fragment));
                if !m0.contains_key(k) {
                    assert(fragments_from(prev, k) =~= Seq::empty());
                    assert(seq![fragment] =~= Seq::<Seq<u8>>::empty().push(fragment));
                }
            } else {
                assert(fragments_from(events, k) == fragments_from(prev, k));
            }
        }
    }
}

/// Fragments that arrive after a flush are not in what it handed out and
/// are not lost: for every speaker, what the flush handed out followed by
/// what the next flush hands out is exactly that speaker's fragments of the
/// whole stream, in arrival order.
pub proof fn lemma_flush_loses_nothing(before: Seq<(u64, Seq<u8>)>, after: Seq<(u64, Seq<u8>)>)
    ensures
        forall|k: u64| #[trigger]
            fragments_from(before + after, k) == frames_or_empty(ingest_all(Map::empty(), before), k)
                + frames_or_empty(ingest_all(Map::empty(), after), k),
    decreases after.len(),
{
    lemma_flush_groups_fragments_by_speaker(before);
    lemma_flush_groups_fragments_by_speaker(after);
    if after.len() == 0 {
        assert(before + after =~= before);
        assert forall|k: u64| #[trigger]
            fragments_from(before + after, k) == frames_or_empty(
                ingest_all(Map::empty(), before),
                k,
            ) + frames_or_empty(ingest_all(Map::empty(), after), k) by {
            assert(frames_or_empty(ingest_all(Map::empty(), after), k) =~= Seq::empty());
            assert(frames_or_empty(ingest_all(Map::empty(), before), k) + Seq::<Seq<u8>>::empty()
                =~= frames_or_empty(ingest_all(Map::empty(), before), k));
            if fragments_from(before, k).len() == 0 {
                assert(fragments_from(before, k) =~= Seq::empty());
            }
        }
    } else {
        lemma_flush_loses_nothing(before, after.drop_last());
        lemma_flush_groups_fragments_by_speaker(after.drop_last());
        assert((before + after).drop_last() =~= before + after.drop_last());
        assert((before + after).last() == after.last());
        assert forall|k: u64| #[trigger]
            fragments_from(before + after, k) == frames_or_empty(
                ingest_all(Map::empty(), before),
                k,
            ) + frames_or_empty(ingest_all(Map::empty(), after), k) by {
            let a = frames_or_empty(ingest_all(Map::empty(), before), k);
            let b0 = frames_or_empty(ingest_all(Map::empty(), after.drop_last()), k);
            let b = frames_or_empty(ingest_all(Map::empty(), after), k);
            assert(fragments_from(before + after.drop_last(), k) == a + b0);
            if fragments_from(after.drop_last(), k).len() == 0 {
                assert(fragments_from(after.drop_last(), k) =~= b0);
            }
            if fragments_from(after, k).len() == 0 {
                assert(fragments_from(after, k) =~= b);
            }
            if after.last().0 == k && after.last().1.len() > 0 {
                assert(b == b0.push(after.last().1));
                assert((a + b0).push(after.last().1) =~= a + b0.push(after.last().1));
            } else {
                assert(b == b0);
            }
        }
    }
}

} // verus!
