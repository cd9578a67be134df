//! The client: speaker records, the registry over them, the dictionary and
//! its matcher, and the requests to the synthesis engine.

use vstd::prelude::*;
use vstd::string::StringExecFns;

use crate::error::VVError;
use crate::lexicon::Lexicon;
use crate::lexicon::compiles;
use crate::lexicon::normalized;
use crate::playback::PlayAction;
use crate::playback::PlayEvent;
use crate::playback::PlaybackQueue;
use crate::playback::QueueState;
use crate::playback::advanced;
use crate::playback::flushed;
use crate::playback::submitted;
use crate::registry::SpeakerRegistry;
use crate::registry::description;
use crate::registry::found;
use crate::registry::named_last;
use crate::registry::speaker_lines;
use crate::registry::unnamed;
use crate::registry::voice_of;
use crate::text::decimal;
use crate::text::decimal_string;
use crate::text::texts;
use crate::urlencode::form_encoded;
use crate::urlencode::query_string;
use crate::words::Dict;
use crate::words::Words;
use crate::words::distinct_numbers;
use crate::words::loaded;
use crate::words::rows_of;

verus! {

/// What a speaker permits, as the engine reports it.
#[derive(Debug)]
pub struct Feat {
    /// Whether the voice may be morphed with another.
    pub permitted_synthesis_morphing: String,
}

/// One speaking manner of a speaker.
#[derive(Debug)]
pub struct Style {
    /// The numeric voice id that the engine takes.
    pub id: i32,
    /// The name of the manner.
    pub name: String,
}

/// A voice identity with its manners.
#[derive(Debug)]
pub struct Speaker {
    /// The speaker's name.
    pub name: String,
    /// The speaker's unique id.
    pub speaker_uuid: String,
    /// The manners, in the engine's order.
    pub styles: Vec<Style>,
    /// What the speaker permits.
    pub supported_features: Feat,
    /// The version of the voice.
    pub version: String,
}

/// The address of one of the engine's services.
pub open spec fn endpoint(host: Seq<char>, port: i32, service: Seq<char>) -> Seq<char> {
    "http://"@ + host + ":"@ + decimal(port as int) + "/"@ + service
}

/// The parameters of a request for an utterance plan.
pub open spec fn query_params(text: Seq<char>, id: i32) -> Seq<(Seq<char>, Seq<char>)> {
    seq![("text"@, text), ("speaker"@, decimal(id as int))]
}

/// What the location of the dictionary's file is turned into, once the
/// platform has joined the file name to the directory: the text of the
/// location, or `NotPath` where it has none.
pub fn path_text(joined: Option<String>) -> (r: Result<String, VVError>)
    ensures
        r == match joined {
            Some(s) => Ok::<String, VVError>(s),
            None => Err::<String, VVError>(VVError::NotPath),
        },
{
    match joined {
        Some(s) => Ok(s),
        None => Err(VVError::NotPath),
    }
}

/// The client as plain values.
pub struct ClientView {
    /// The engine's host.
    pub host: Seq<char>,
    /// The engine's port.
    pub port: i32,
    /// The speakers, as they were loaded.
    pub speakers: Seq<Speaker>,
    /// The dictionary.
    pub dict: Dict,
    /// Whether a matcher was compiled from the dictionary.
    pub compiled: bool,
    /// The directory of the dictionary's file.
    pub cfg_path: Seq<char>,
    /// The name of the dictionary's file.
    pub words_file: Seq<char>,
    /// The playback queue.
    pub queue: QueueState,
}

/// The client of the speech engine. It owns the registry of speakers, the
/// dictionary with its compiled matcher, and the playback queue.
pub struct VVClient {
    host: String,
    port: i32,
    registry: SpeakerRegistry,
    lexicon: Lexicon,
    words_file: String,
    cfg_path: String,
    playback: PlaybackQueue,
}

impl View for VVClient {
    type V = ClientView;

    closed spec fn view(&self) -> ClientView {
        ClientView {
            host: self.host@,
            port: self.port,
            speakers: self.registry.speakers(),
            dict: self.lexicon.dict(),
            compiled: self.lexicon.compiled(),
            cfg_path: self.cfg_path@,
            words_file: self.words_file@,
            queue: self.playback@,
        }
    }
}

impl VVClient {
    /// A client for the engine at `127.0.0.1:50021`, with no speakers, an
    /// empty dictionary kept in `./cfg/words.tsv` with its matcher, and no
    /// sink.
    pub fn new() -> (r: VVClient)
        ensures
            r@ == (ClientView {
                host: "127.0.0.1"@,
                port: 50021,
                speakers: Seq::empty(),
                dict: Seq::empty(),
                compiled: true,
                cfg_path: "./cfg"@,
                words_file: "words.tsv"@,
                queue: QueueState { sink_ready: false, phase: crate::playback::Phase::Idle, queued: Seq::empty() },
            }),
    {
        VVClient {
            host: String::from_str("127.0.0.1"),
            port: 50021,
            registry: SpeakerRegistry::load(Vec::new()),
            lexicon: Lexicon::new(),
            words_file: String::from_str("words.tsv"),
            cfg_path: String::from_str("./cfg"),
            playback: PlaybackQueue::new(false),
        }
    }

    /// Points the client at another engine.
    pub fn set_server(&mut self, host: String, port: i32)
        ensures
            final(self)@ == (ClientView { host: host@, port, ..old(self)@ }),
    {
        self.host = host;
        self.port = port;
    }

    /// Keeps the dictionary in another file.
    pub fn set_store(&mut self, cfg_path: String, words_file: String)
        ensures
            final(self)@ == (ClientView {
                cfg_path: cfg_path@,
                words_file: words_file@,
                ..old(self)@
            }),
    {
        self.cfg_path = cfg_path;
        self.words_file = words_file;
    }

    /// Records whether the persistent sink could be opened.
    pub fn sink_opened(&mut self, opened: bool)
        ensures
            final(self)@ == (ClientView {
                queue: QueueState { sink_ready: opened, ..old(self)@.queue },
                ..old(self)@
            }),
    {
        self.playback.sink_opened(opened);
    }

    /// The address of one of the engine's services.
    pub fn uri(&self, service: &str) -> (r: String)
        ensures
            r@ == endpoint(self@.host, self@.port, service@),
    {
        let mut s: String = String::from_str("http://");
        s.append(self.host.as_str());
        s.append(":");
        s.append(decimal_string(self.port as i128).as_str());
        s.append("/");
        s.append(service);
        s
    }

    /// The engine's host.
    pub fn host(&self) -> (r: &String)
        ensures
            r@ == self@.host,
    {
        &self.host
    }

    /// The engine's port.
    pub fn port(&self) -> (r: i32)
        ensures
            r == self@.port,
    {
        self.port
    }

    /// The speakers, in the order in which they were loaded.
    pub fn speakers(&self) -> (r: &Vec<Speaker>)
        ensures
            r@ == self@.speakers,
    {
        self.registry.list()
    }

    /// The directory of the dictionary's file.
    pub fn cfg_path(&self) -> (r: &String)
        ensures
            r@ == self@.cfg_path,
    {
        &self.cfg_path
    }

    /// The name of the dictionary's file.
    pub fn words_file(&self) -> (r: &String)
        ensures
            r@ == self@.words_file,
    {
        &self.words_file
    }

    /// Enters rows into the dictionary in their order and compiles the
    /// matcher anew from the whole dictionary. A row whose sequence number
    /// is in the dictionary takes the place of the entry that has it; any
    /// other row goes to the end. Where the matcher cannot be built, the
    /// dictionary keeps the rows, the client is left without a matcher, and
    /// the error says so.
    pub fn load_words(&mut self, rows: Vec<Words>) -> (r: Result<(), VVError>)
        ensures
            final(self)@ == (ClientView {
                dict: loaded(old(self)@.dict, rows_of(rows@)),
                compiled: r is Ok,
                ..old(self)@
            }),
            distinct_numbers(final(self)@.dict),
            r is Ok <==> compiles(final(self)@.dict),
            r matches Err(e) ==> e == VVError::MatcherTooLarge,
    {
        self.lexicon.load(&rows)
    }

    /// The dictionary as rows, in its order, which is the order of
    /// priority; no sequence number occurs twice among them.
    pub fn save_words(&self) -> (r: Vec<Words>)
        ensures
            rows_of(r@) == self@.dict,
            distinct_numbers(rows_of(r@)),
    {
        self.lexicon.rows()
    }

    /// Takes the list of speakers that the engine reported and builds the
    /// registry over it.
    pub fn get_speakers(&mut self, fetched: Vec<Speaker>)
        ensures
            final(self)@ == (ClientView { speakers: fetched@, ..old(self)@ }),
    {
        self.registry = SpeakerRegistry::load(fetched);
    }

    /// The speakers and their styles as lines of text, ready to be shown.
    pub fn display_speakers(&self) -> (r: Vec<String>)
        ensures
            texts(r@) == speaker_lines(self@.speakers),
    {
        self.registry.lines()
    }

    /// Whether (speaker index, style index) is a place in the registry.
    pub fn has_style(&self, idx: (usize, usize)) -> (r: bool)
        ensures
            r == (idx.0 < self@.speakers.len() && idx.1 < self@.speakers[idx.0 as int].styles@.len()),
    {
        self.registry.has_style(idx.0, idx.1)
    }

    /// The number of speakers.
    pub fn speakers_len(&self) -> (r: usize)
        ensures
            r == self@.speakers.len(),
    {
        self.registry.len()
    }

    /// The index of the speaker with exactly this name.
    pub fn find(&self, name: &str) -> (r: Option<usize>)
        ensures
            r == found(self@.speakers, name@),
            match r {
                Some(i) => named_last(self@.speakers, name@, i as int),
                None => unnamed(self@.speakers, name@),
            },
    {
        self.registry.find_index(name)
    }

    /// The voice id of the named speaker's style `ss`.
    pub fn speaker(&self, name: &str, ss: &str) -> (r: Option<i32>)
        ensures
            r == voice_of(self@.speakers, name@, ss@),
    {
        self.registry.resolve_voice_id(name, ss)
    }

    /// The name of the speaker at `idx`.
    pub fn name(&self, idx: usize) -> (r: &String)
        requires
            idx < self@.speakers.len(),
        ensures
            r == self@.speakers[idx as int].name,
    {
        self.registry.speaker_name(idx)
    }

    /// The name of the style at (speaker index, style index).
    pub fn style_name(&self, idx: (usize, usize)) -> (r: &String)
        requires
            idx.0 < self@.speakers.len(),
            idx.1 < self@.speakers[idx.0 as int].styles@.len(),
        ensures
            r == self@.speakers[idx.0 as int].styles@[idx.1 as int].name,
    {
        self.registry.style_name(idx.0, idx.1)
    }

    /// The voice id of the style at (speaker index, style index).
    pub fn style_id(&self, idx: (usize, usize)) -> (r: i32)
        requires
            idx.0 < self@.speakers.len(),
            idx.1 < self@.speakers[idx.0 as int].styles@.len(),
        ensures
            r == self@.speakers[idx.0 as int].styles@[idx.1 as int].id,
    {
        self.registry.voice_id(idx.0, idx.1)
    }

    /// Describes a voice id: `true` and the id with the names of speaker and
    /// style, or `false` and the id with `UNKNOWN` twice.
    pub fn detail_speaker(&self, id: i32) -> (r: (bool, String))
        ensures
            r.0 == description(self@.speakers, id).0,
            r.1@ == description(self@.speakers, id).1,
    {
        self.registry.describe(id)
    }

    /// The text as it is sent to the engine.
    pub fn normalize(&self, txt: &str) -> (r: String)
        ensures
            r@ == normalized(self@.dict, self@.compiled, txt@),
    {
        self.lexicon.normalize(txt)
    }

    /// The address to which the request for an utterance plan is posted: the
    /// `audio_query` service with the normalized text and the voice id as
    /// encoded parameters.
    pub fn query(&self, txt: &str, id: i32) -> (r: String)
        ensures
            r@ == endpoint(self@.host, self@.port, "audio_query"@) + "?"@ + form_encoded(
                query_params(normalized(self@.dict, self@.compiled, txt@), id),
            ),
    {
        let mut params: Vec<(String, String)> = Vec::new();
        params.push((String::from_str("text"), self.normalize(txt)));
        params.push((String::from_str("speaker"), decimal_string(id as i128)));
        proof {
            assert(crate::text::pairs(params@) =~= query_params(
                normalized(self@.dict, self@.compiled, txt@),
                id,
            ));
        }
        let mut s: String = self.uri("audio_query");
        s.append("?");
        s.append(query_string(&params).as_str());
        s
    }

    /// The address to which an utterance plan is posted for synthesis: the
    /// `synthesis` service with the voice id as parameter.
    pub fn synth(&self, id: i32) -> (r: String)
        ensures
            r@ == endpoint(self@.host, self@.port, "synthesis"@) + "?speaker="@ + decimal(
                id as int,
            ),
    {
        let mut s: String = self.uri("synthesis");
        s.append("?speaker=");
        s.append(decimal_string(id as i128).as_str());
        s
    }

    /// The playback queue.
    pub fn playback(&self) -> (r: &PlaybackQueue)
        ensures
            r@ == self@.queue,
    {
        &self.playback
    }

    /// Whether a matcher was compiled from the dictionary.
    pub fn is_compiled(&self) -> (r: bool)
        ensures
            r == self@.compiled,
    {
        self.lexicon.is_compiled()
    }

    /// Begins the playing of audio bytes: at once and for `sec` seconds
    /// where `sec` is above zero, by the persistent sink where it is zero.
    pub fn speak(&mut self, dat: &Vec<u8>, sec: u64) -> (r: PlayAction)
        ensures
            final(self)@ == (ClientView {
                queue: submitted(old(self)@.queue, dat@.len() as usize, sec).0,
                ..old(self)@
            }),
            r == submitted(old(self)@.queue, dat@.len() as usize, sec).1,
    {
        self.playback.submit(dat.len(), sec)
    }

    /// Begins a flush: a wait until the persistent sink is empty.
    pub fn speak_flush(&mut self) -> (r: PlayAction)
        ensures
            final(self)@ == (ClientView { queue: flushed(old(self)@.queue).0, ..old(self)@ }),
            r == flushed(old(self)@.queue).1,
    {
        self.playback.flush()
    }

    /// Takes the outcome of the last playback action and says what follows.
    pub fn played(&mut self, event: PlayEvent) -> (r: PlayAction)
        ensures
            final(self)@ == (ClientView {
                queue: advanced(old(self)@.queue, event).0,
                ..old(self)@
            }),
            r == advanced(old(self)@.queue, event).1,
    {
        self.playback.advance(event)
    }
}

} // verus!
