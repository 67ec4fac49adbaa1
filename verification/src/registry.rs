use vstd::prelude::*;

use crate::model::{RawVoice, Voice};

verus! {

/// A failure that aborts process startup: the catalog could not be built.
#[derive(Debug, Clone, PartialEq)]
pub enum StartupError {
    /// The platform reported a gender code that is neither male nor female;
    /// the offending code is carried for the startup diagnostic.
    UnrecognizedGender(i32),
    /// The platform reported the same voice id twice; ids must be unique
    /// across the catalog, and the repeated id is carried for the startup
    /// diagnostic.
    DuplicateVoiceId(String),
    /// The platform enumeration produced no voices at all; the gateway must
    /// not start without a voice to offer.
    EmptyCatalog,
}

/// The gender codes the platform may report that the gateway recognizes.
pub open spec fn recognized_gender(code: i32) -> bool {
    code == 0 || code == 1
}

/// The catalog label for a recognized gender code.
pub open spec fn gender_label(code: i32) -> Seq<char> {
    if code == 0 {
        "Male"@
    } else {
        "Female"@
    }
}

/// Every pair of entries carries distinct ids: a voice id identifies one
/// catalog entry.
pub open spec fn ids_unique(vs: Seq<Voice>) -> bool {
    forall|i: int, j: int|
        0 <= i < j < vs.len() ==> (#[trigger] vs[i]).id@ != (#[trigger] vs[j]).id@
}

/// A raw record and a catalog entry agree: the four strings carry over and
/// the gender code became its label.
pub open spec fn voice_of_raw(v: Voice, raw: RawVoice) -> bool {
    &&& v.display_name@ == raw.display_name@
    &&& v.id@ == raw.id@
    &&& v.language@ == raw.language@
    &&& v.description@ == raw.description@
    &&& v.gender@ == gender_label(raw.gender)
}

/// The immutable, process-lifetime voice catalog. Built once at startup and
/// never mutated; concurrent readers need no synchronization.
#[derive(Debug, Clone, PartialEq)]
pub struct VoiceCatalog {
    voices: Vec<Voice>,
}

impl View for VoiceCatalog {
    type V = Seq<Voice>;

    closed spec fn view(&self) -> Seq<Voice> {
        self.voices@
    }
}

impl VoiceCatalog {
    /// A well-formed catalog holds at least one voice — startup fails rather
    /// than serve an empty catalog — and its voice ids are unique.
    pub open spec fn wf(&self) -> bool {
        self@.len() > 0 && ids_unique(self@)
    }

    /// Some catalog entry carries this id.
    pub open spec fn has_voice(&self, id: Seq<char>) -> bool {
        exists|i: int| 0 <= i < self@.len() && (#[trigger] self@[i]).id@ == id
    }

    /// Builds the catalog from the platform's enumeration, in enumeration
    /// order. Fails on the first unrecognized gender code, on the first
    /// repeated voice id, and when the enumeration is empty; succeeds exactly
    /// when the enumeration is non-empty, every gender code is recognized,
    /// and every voice id is distinct.
    pub fn load(raw: Vec<RawVoice>) -> (r: Result<VoiceCatalog, StartupError>)
        ensures
            match r {
                Ok(c) => {
                    &&& raw@.len() > 0
                    &&& forall|i: int|
                        0 <= i < raw@.len() ==> recognized_gender((#[trigger] raw@[i]).gender)
                    &&& forall|i: int, j: int|
                        0 <= i < j < raw@.len() ==> (#[trigger] raw@[i]).id@ != (
                        #[trigger] raw@[j]).id@
                    &&& c@.len() == raw@.len()
                    &&& forall|i: int|
                        0 <= i < raw@.len() ==> voice_of_raw(#[trigger] c@[i], raw@[i])
                },
                Err(StartupError::UnrecognizedGender(g)) => {
                    &&& !recognized_gender(g)
                    &&& exists|i: int|
                        {
                            &&& 0 <= i < raw@.len()
                            &&& (#[trigger] raw@[i]).gender == g
                            &&& forall|j: int|
                                0 <= j < i ==> recognized_gender((#[trigger] raw@[j]).gender)
                        }
                },
                Err(StartupError::DuplicateVoiceId(id)) => exists|i: int, j: int|
                    {
                        &&& 0 <= i < j < raw@.len()
                        &&& (#[trigger] raw@[i]).id@ == id@
                        &&& (#[trigger] raw@[j]).id@ == id@
                    },
                Err(StartupError::EmptyCatalog) => raw@.len() == 0,
            },
            r is Ok ==> r->Ok_0.wf(),
    {
        let mut voices: Vec<Voice> = Vec::new();
        let n = raw.len();
        let mut k: usize = 0;
        while k < n
            invariant
                n == raw@.len(),
                0 <= k <= n,
                voices@.len() == k,
                forall|i: int| 0 <= i < k ==> recognized_gender((#[trigger] raw@[i]).gender),
                forall|i: int| 0 <= i < k ==> voice_of_raw(#[trigger] voices@[i], raw@[i]),
                ids_unique(voices@),
            decreases n - k,
        {
            let rv = &raw[k];
            let gender: String = if rv.gender == 0 {
                String::from_str("Male")
            } else if rv.gender == 1 {
                String::from_str("Female")
            } else {
                proof {
                    let i0: int = k as int;
                    assert(0 <= i0 < raw@.len() && raw@[i0].gender == rv.gender);
                    assert(forall|j: int|
                        0 <= j < i0 ==> recognized_gender((#[trigger] raw@[j]).gender));
                }
                return Err(StartupError::UnrecognizedGender(rv.gender));
            };
            let mut d: usize = 0;
            while d < k
                invariant
                    n == raw@.len(),
                    0 <= d <= k < n,
                    voices@.len() == k,
                    rv.id@ == raw@[k as int].id@,
                    forall|i: int| 0 <= i < k ==> voice_of_raw(#[trigger] voices@[i], raw@[i]),
                    forall|a: int| 0 <= a < d ==> (#[trigger] voices@[a]).id@ != rv.id@,
                decreases k - d,
            {
                if voices[d].id == rv.id {
                    proof {
                        let i0: int = d as int;
                        let j0: int = k as int;
                        assert(0 <= i0 < j0 < raw@.len());
                        assert(raw@[i0].id@ == voices@[i0].id@);
                        assert(raw@[i0].id@ == rv.id@ && raw@[j0].id@ == rv.id@);
                    }
                    return Err(StartupError::DuplicateVoiceId(rv.id.clone()));
                }
                d = d + 1;
            }
            let v = Voice {
                display_name: rv.display_name.clone(),
                id: rv.id.clone(),
                language: rv.language.clone(),
                description: rv.description.clone(),
                gender,
            };
            voices.push(v);
            k = k + 1;
        }
        if voices.len() == 0 {
            Err(StartupError::EmptyCatalog)
        } else {
            proof {
                assert forall|i: int, j: int| 0 <= i < j < raw@.len() implies (
                #[trigger] raw@[i]).id@ != (#[trigger] raw@[j]).id@ by {
                    assert(voice_of_raw(voices@[i], raw@[i]));
                    assert(voice_of_raw(voices@[j], raw@[j]));
                    assert(voices@[i].id@ != voices@[j].id@);
                }
            }
            Ok(VoiceCatalog { voices })
        }
    }

    /// Resolves a voice id against the catalog: the first entry carrying the
    /// id, or `None` when no entry does.
    pub fn lookup(&self, id: &String) -> (r: Option<&Voice>)
        ensures
            match r {
                Some(v) => exists|i: int|
                    {
                        &&& 0 <= i < self@.len()
                        &&& *v == #[trigger] self@[i]
                        &&& self@[i].id@ == id@
                        &&& forall|j: int| 0 <= j < i ==> (#[trigger] self@[j]).id@ != id@
                    },
                None => forall|i: int|
                    0 <= i < self@.len() ==> (#[trigger] self@[i]).id@ != id@,
            },
            r is Some <==> self.has_voice(id@),
    {
        let n = self.voices.len();
        let mut k: usize = 0;
        while k < n
            invariant
                n == self.voices@.len(),
                0 <= k <= n,
                forall|j: int| 0 <= j < k ==> (#[trigger] self.voices@[j]).id@ != id@,
            decreases n - k,
        {
            if self.voices[k].id == *id {
                proof {
                    let i0: int = k as int;
                    assert(0 <= i0 < self@.len());
                    assert(self@[i0] == self.voices@[i0]);
                    assert(self@[i0].id@ == id@);
                    assert(forall|j: int| 0 <= j < i0 ==> (#[trigger] self@[j]).id@ != id@);
                }
                return Some(&self.voices[k]);
            }
            k = k + 1;
        }
        None
    }
}

/// The full voice list, in enumeration order, non-empty and with pairwise
/// distinct ids for any catalog that startup accepted; repeated calls on one
/// catalog return the same list.
pub fn voices(catalog: &VoiceCatalog) -> (r: &Vec<Voice>)
    requires
        catalog.wf(),
    ensures
        r@ == catalog@,
        r@.len() > 0,
        ids_unique(r@),
{
    &catalog.voices
}

/// The catalog endpoint never serves an empty list, and never two entries
/// under one id: well-formedness pins the list `voices` returns to the
/// catalog's own non-empty, uniquely-keyed contents, so the list is also
/// stable — every call within a process lifetime yields the same sequence,
/// since nothing can mutate a built catalog.
pub proof fn lemma_voice_list_nonempty_and_stable(catalog: VoiceCatalog)
    requires
        catalog.wf(),
    ensures
        catalog@.len() > 0,
        ids_unique(catalog@),
{
}

} // verus!
