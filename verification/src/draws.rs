//! Sources of six-sided die faces.
//!
//! Every function that rolls dice takes its source explicitly. A source is modelled by the
//! sequence of faces it has handed out so far, so a contract can say exactly which draws a
//! call consumed and what it made of them.

use rand::rngs::ThreadRng;
use rand::Rng;
use vstd::prelude::*;

verus! {

/// A value that a six-sided die can show.
pub open spec fn is_face(v: int) -> bool {
    1 <= v <= 6
}

/// The face that a script shows at the `n`-th draw; it starts over when it runs out.
pub open spec fn script_face(script: Seq<int>, n: int) -> int
    recommends
        script.len() > 0,
        0 <= n,
{
    script[n % (script.len() as int)]
}

/// `log` holds exactly what a script shows on its first `log.len()` draws.
pub open spec fn follows_script(log: Seq<int>, script: Seq<int>) -> bool {
    forall|k: int| 0 <= k < log.len() ==> #[trigger] log[k] == script_face(script, k)
}

/// A count of draws as a `u64` holds it: exact up to the largest `u64`, and stuck there after.
pub open spec fn counted(n: nat) -> int {
    if n <= u64::MAX {
        n as int
    } else {
        u64::MAX as int
    }
}

/// A stream of die faces, drawn one at a time.
pub trait DiceSource {
    /// Every face this source has handed out so far, oldest first.
    spec fn drawn(&self) -> Seq<int>;

    /// Draws the next face and records it at the end of the history.
    fn draw(&mut self) -> (face: isize)
        ensures
            is_face(face as int),
            final(self).drawn() == old(self).drawn().push(face as int),
    ;
}

/// Where a scripted source stands: the next face to show, and what it has shown.
struct Progress {
    cursor: usize,
    taken: u64,
    log: Ghost<Seq<int>>,
}

/// A source that replays a fixed list of faces over and over.
pub struct ScriptedDice {
    script: Vec<isize>,
    at: Progress,
}

impl ScriptedDice {
    #[verifier::type_invariant]
    spec fn inv(self) -> bool {
        &&& Self::playable(self.script@)
        &&& self.at.cursor < self.script@.len()
        &&& self.at.cursor as int == (self.at.log@.len() as int) % (self.script@.len() as int)
        &&& self.at.taken as int == counted(self.at.log@.len())
        &&& follows_script(self.at.log@, self.script@.map_values(|v: isize| v as int))
    }

    /// The faces that this source replays.
    pub closed spec fn script(&self) -> Seq<int> {
        self.script@.map_values(|v: isize| v as int)
    }

    /// A script can be replayed when it is not empty and holds die faces only.
    pub open spec fn playable(script: Seq<isize>) -> bool {
        &&& script.len() > 0
        &&& forall|i: int| 0 <= i < script.len() ==> is_face(#[trigger] script[i] as int)
    }

    /// A source that replays `script` from its start, or `None` where the script is empty or
    /// holds a value that no die shows.
    pub fn new(script: Vec<isize>) -> (made: Option<ScriptedDice>)
        ensures
            made.is_some() <==> Self::playable(script@),
            made matches Some(source) ==> {
                &&& source.script() == script@.map_values(|v: isize| v as int)
                &&& source.drawn() == Seq::<int>::empty()
            },
    {
        if script.len() == 0 {
            return None;
        }
        let mut i: usize = 0;
        while i < script.len()
            invariant
                i <= script.len(),
                forall|j: int| 0 <= j < i ==> is_face(#[trigger] script@[j] as int),
            decreases script.len() - i,
        {
            if script[i] < 1 || script[i] > 6 {
                return None;
            }
            i += 1;
        }
        assert(0int % (script@.len() as int) == 0);
        Some(ScriptedDice { script, at: Progress { cursor: 0, taken: 0, log: Ghost(Seq::empty()) } })
    }

    /// How many faces have been drawn so far, as far as a `u64` counts. Whatever has been
    /// drawn is what the script shows, in order, from its first face on.
    pub fn draws_taken(&self) -> (n: u64)
        ensures
            self.script().len() > 0,
            follows_script(self.drawn(), self.script()),
            n as int == counted(self.drawn().len()),
    {
        proof {
            use_type_invariant(self);
        }
        self.at.taken
    }
}

impl DiceSource for ScriptedDice {
    closed spec fn drawn(&self) -> Seq<int> {
        self.at.log@
    }

    fn draw(&mut self) -> (face: isize)
        ensures
            face as int == script_face(old(self).script(), old(self).drawn().len() as int),
            final(self).script() == old(self).script(),
            follows_script(final(self).drawn(), final(self).script()),
    {
        proof {
            use_type_invariant(&*self);
        }
        let face = self.script[self.at.cursor];
        let ghost before = self.at.log@;
        let ghost faces = self.script@.map_values(|v: isize| v as int);
        let len = self.script.len();
        let next = if self.at.cursor + 1 == len {
            0
        } else {
            self.at.cursor + 1
        };
        let count = if self.at.taken < u64::MAX {
            self.at.taken + 1
        } else {
            self.at.taken
        };
        proof {
            let len = len as int;
            let n = before.len() as int;
            let cur = self.at.cursor as int;
            assert((n + 1) % len == next as int) by (nonlinear_arith)
                requires
                    len > 0,
                    n >= 0,
                    n % len == cur,
                    0 <= cur < len,
                    next as int == if cur + 1 == len { 0 } else { cur + 1 },
            ;
            assert(faces[cur] == face as int);
            assert(before.push(face as int)[n] == script_face(faces, n));
        }
        self.at = Progress { cursor: next, taken: count, log: Ghost(before.push(face as int)) };
        face
    }
}

/// A source backed by rand's thread-local generator.
pub struct ThreadDice {
    rng: ThreadRng,
    log: Ghost<Seq<int>>,
}

impl ThreadDice {
    /// Wraps a generator; nothing has been drawn through the wrapper yet.
    pub fn new(rng: ThreadRng) -> (source: ThreadDice)
        ensures
            source.drawn() == Seq::<int>::empty(),
    {
        ThreadDice { rng, log: Ghost(Seq::empty()) }
    }
}

impl DiceSource for ThreadDice {
    closed spec fn drawn(&self) -> Seq<int> {
        self.log@
    }

    fn draw(&mut self) -> (face: isize) {
        let face = sample_face(&mut self.rng);
        self.log = Ghost(self.log@.push(face as int));
        face
    }
}

/// Declares `rand::rngs::ThreadRng` as a type whose inside is not looked at: a generator is
/// only stored and handed on to `gen_range`.
#[verifier::external_type_specification]
#[verifier::external_body]
pub struct ExThreadRng(ThreadRng);

/// Calls `rand::Rng::gen_range` on the inclusive range from 1 to 6. The generator samples
/// uniformly inside the range it is given, so all that is claimed of the outcome is that it
/// lies between 1 and 6; the range is not empty, which is the only case where the call panics.
#[verifier::external_body]
fn sample_face(rng: &mut ThreadRng) -> (face: isize)
    ensures
        1 <= face <= 6,
{
    rng.gen_range(1..=6)
}

} // verus!
