use vstd::prelude::*;
use crate::cache::{ResourceCache, ResourceKey};

verus! {

/// How a sound is played: music is streamed from its file when played, an
/// effect is decoded once and kept.
#[derive(PartialEq, Eq, Structural, Clone, Copy, Hash, Debug)]
pub enum AudioType {
    Music,
    Effect,
}

/// A sound file and how it is played: the key of a loaded sound.
#[derive(Clone, Debug, Hash, PartialEq, Eq)]
pub struct AudioSource {
    pub filename: String,
    pub audio_type: AudioType,
}

impl View for AudioSource {
    type V = (Seq<char>, AudioType);

    open spec fn view(&self) -> (Seq<char>, AudioType) {
        (self.filename@, self.audio_type)
    }
}

impl ResourceKey for AudioSource {
    fn same_key(&self, other: &Self) -> (r: bool) {
        self.audio_type == other.audio_type && self.filename == other.filename
    }

    fn duplicate(&self) -> (r: Self) {
        AudioSource { filename: self.filename.clone(), audio_type: self.audio_type }
    }
}

/// The decoded effects, by source; music sources hold nothing.
pub type AudioManager<V> = ResourceCache<AudioSource, Option<V>>;

/// Makes `source` playable: an effect is decoded by `decode` and kept, music
/// keeps nothing (it is streamed from its file when played). A source already
/// held is left as it is and nothing is decoded.
pub fn new_audio<V, E, F: Fn(&AudioSource) -> Result<V, E>>(
    manager: &mut AudioManager<V>,
    source: AudioSource,
    decode: &F,
) -> (r: Result<(), E>)
    requires
        old(manager).wf(),
        forall|s: &AudioSource| decode.requires((s,)),
    ensures
        final(manager).wf(),
        old(manager)@.contains_key(source@) ==> final(manager)@ == old(manager)@ && r is Ok,
        !old(manager)@.contains_key(source@) && source.audio_type == AudioType::Music
            ==> final(manager)@ == old(manager)@.insert(source@, None) && r is Ok,
        !old(manager)@.contains_key(source@) && source.audio_type == AudioType::Effect ==> match r {
            Ok(_) => exists|v: V|
                #[trigger] decode.ensures((&source,), Ok::<V, E>(v))
                    && final(manager)@ == old(manager)@.insert(source@, Some(v)),
            Err(e) => decode.ensures((&source,), Err::<V, E>(e)) && final(manager)@ == old(manager)@,
        },
        old(manager)@.contains_key(source@) ==> forall|k: (Seq<char>, AudioType)|
            final(manager).load_count(k) == old(manager).load_count(k)
                && final(manager).failure_count(k) == old(manager).failure_count(k),
        !old(manager)@.contains_key(source@) ==> {
            &&& final(manager).load_count(source@) == old(manager).load_count(source@) + 1
            &&& forall|k: (Seq<char>, AudioType)|
                k != source@ ==> final(manager).load_count(k) == old(manager).load_count(k)
                    && final(manager).failure_count(k) == old(manager).failure_count(k)
        },
{
    let loader = |s: &AudioSource| -> (out: Result<Option<V>, E>)
        requires
            decode.requires((s,)),
        ensures
            s.audio_type == AudioType::Music ==> out matches Ok(None),
            s.audio_type == AudioType::Effect ==> match out {
                Ok(Some(v)) => decode.ensures((s,), Ok::<V, E>(v)),
                Ok(None) => false,
                Err(e) => decode.ensures((s,), Err::<V, E>(e)),
            },
        {
            match s.audio_type {
                AudioType::Effect => match decode(s) {
                    Ok(v) => Ok(Some(v)),
                    Err(e) => Err(e),
                },
                AudioType::Music => Ok(None),
            }
        };
    match manager.get_or_create(source, &loader) {
        Ok(_) => Ok(()),
        Err(e) => Err(e),
    }
}

/// The sources registered by file name, at most one per name, and whether the
/// mixer device has been opened.
pub struct AudioSources {
    sources: Vec<AudioSource>,
    opened: bool,
}

impl View for AudioSources {
    type V = Map<Seq<char>, AudioType>;

    closed spec fn view(&self) -> Map<Seq<char>, AudioType> {
        Map::new(
            |name: Seq<char>| exists|i: int| 0 <= i < self.sources@.len() && self.sources@[i].filename@ == name,
            |name: Seq<char>| {
                let i = choose|i: int| 0 <= i < self.sources@.len() && self.sources@[i].filename@ == name;
                self.sources@[i].audio_type
            },
        )
    }
}

impl AudioSources {
    pub closed spec fn wf(&self) -> bool {
        forall|i: int, j: int|
            0 <= i < j < self.sources@.len() ==> self.sources@[i].filename@ != self.sources@[j].filename@
    }

    pub closed spec fn opened_spec(&self) -> bool {
        self.opened
    }

    pub fn new() -> (r: AudioSources)
        ensures
            r.wf(),
            r@ == Map::<Seq<char>, AudioType>::empty(),
            !r.opened_spec(),
    {
        let r = AudioSources { sources: Vec::new(), opened: false };
        assert(r@ =~= Map::<Seq<char>, AudioType>::empty());
        r
    }

    fn position(&self, filename: &str) -> (r: Option<usize>)
        requires
            self.wf(),
        ensures
            match r {
                Some(i) => i < self.sources@.len() && self.sources@[i as int].filename@ == filename@,
                None => forall|i: int|
                    0 <= i < self.sources@.len() ==> #[trigger] self.sources@[i].filename@ != filename@,
            },
    {
        let name = filename.to_string();
        let mut i: usize = 0;
        while i < self.sources.len()
            invariant
                name@ == filename@,
                i <= self.sources@.len(),
                forall|j: int| 0 <= j < i ==> #[trigger] self.sources@[j].filename@ != filename@,
            decreases self.sources@.len() - i,
        {
            if self.sources[i].filename == name {
                return Some(i);
            }
            i = i + 1;
        }
        None
    }

    /// Registers `filename` to be played as `audio_type`, replacing what it
    /// was registered as before. Returns the source key to load, and whether
    /// the mixer device must be opened first (only on the first registration).
    pub fn register(&mut self, filename: &str, audio_type: AudioType) -> (r: (AudioSource, bool))
        requires
            old(self).wf(),
        ensures
            final(self).wf(),
            final(self)@ == old(self)@.insert(filename@, audio_type),
            r.0@ == (filename@, audio_type),
            r.1 == !old(self).opened_spec(),
            final(self).opened_spec(),
    {
        let must_open = !self.opened;
        self.opened = true;
        let source = AudioSource { filename: filename.to_string(), audio_type };
        let ghost before = self.sources@;
        match self.position(filename) {
            Some(i) => {
                self.sources.set(i, AudioSource { filename: filename.to_string(), audio_type });
                proof {
                    assert(self.sources@[i as int].filename@ == filename@);
                    assert(self@ =~= old(self)@.insert(filename@, audio_type)) by {
                        assert forall|name: Seq<char>| #[trigger] self@.contains_key(name)
                            == old(self)@.insert(filename@, audio_type).contains_key(name) by {
                            if name != filename@ && old(self)@.contains_key(name) {
                                let j = choose|j: int| 0 <= j < before.len() && before[j].filename@ == name;
                                assert(self.sources@[j].filename@ == name);
                            }
                            if name != filename@ && self@.contains_key(name) {
                                let j = choose|j: int| 0 <= j < self.sources@.len() && self.sources@[j].filename@ == name;
                                assert(before[j].filename@ == name);
                            }
                        }
                        assert forall|name: Seq<char>| #[trigger] self@.contains_key(name) implies self@[name]
                            == old(self)@.insert(filename@, audio_type)[name] by {
                            let j = choose|j: int| 0 <= j < self.sources@.len() && self.sources@[j].filename@ == name;
                            if name != filename@ {
                                assert(before[j].filename@ == name);
                                let k = choose|k: int| 0 <= k < before.len() && before[k].filename@ == name;
                                assert(j == k);
                            } else {
                                assert(j == i);
                            }
                        }
                    }
                }
            },
            None => {
                self.sources.push(AudioSource { filename: filename.to_string(), audio_type });
                proof {
                    let n = self.sources@.len() - 1;
                    assert(self.sources@[n].filename@ == filename@);
                    assert(self@ =~= old(self)@.insert(filename@, audio_type)) by {
                        assert forall|name: Seq<char>| #[trigger] self@.contains_key(name)
                            == old(self)@.insert(filename@, audio_type).contains_key(name) by {
                            if name != filename@ && old(self)@.contains_key(name) {
                                let j = choose|j: int| 0 <= j < before.len() && before[j].filename@ == name;
                                assert(self.sources@[j].filename@ == name);
                            }
                            if name != filename@ && self@.contains_key(name) {
                                let j = choose|j: int| 0 <= j < self.sources@.len() && self.sources@[j].filename@ == name;
                                assert(before[j].filename@ == name);
                            }
                        }
                        assert forall|name: Seq<char>| #[trigger] self@.contains_key(name) implies self@[name]
                            == old(self)@.insert(filename@, audio_type)[name] by {
                            let j = choose|j: int| 0 <= j < self.sources@.len() && self.sources@[j].filename@ == name;
                            if name != filename@ {
                                assert(before[j].filename@ == name);
                                let k = choose|k: int| 0 <= k < before.len() && before[k].filename@ == name;
                                assert(j == k);
                            } else {
                                assert(j == n);
                            }
                        }
                    }
                }
            },
        }
        (source, must_open)
    }

    /// How `filename` is to be played, if it was registered.
    pub fn audio_type_of(&self, filename: &str) -> (r: Option<AudioType>)
        requires
            self.wf(),
        ensures
            match r {
                Some(t) => self@.contains_key(filename@) && self@[filename@] == t,
                None => !self@.contains_key(filename@),
            },
    {
        match self.position(filename) {
            Some(i) => {
                proof {
                    let j = choose|j: int| 0 <= j < self.sources@.len() && self.sources@[j].filename@ == filename@;
                    assert(j == i);
                }
                Some(self.sources[i].audio_type)
            },
            None => None,
        }
    }
}

} // verus!
