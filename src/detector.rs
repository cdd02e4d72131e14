use vstd::prelude::*;

verus! {

/// A verdict of the classifier engine: the master (transport-level) and the application
/// protocol identifiers.
#[derive(Clone, Copy, Debug, PartialEq, Eq, Structural)]
pub struct Proto {
    pub master_id: u16,
    pub app_id: u16,
    pub category: u32,
}

impl Proto {
    pub const UNKNOWN: u16 = 0;
    pub const DNS: u16 = 5;
    pub const HTTP: u16 = 7;
    pub const HTTP_DOWNLOAD: u16 = 60;
    pub const HTTP_ACTIVESYNC: u16 = 110;
    pub const HTTP_CONNECT: u16 = 130;
    pub const HTTP_PROXY: u16 = 131;

    /// A protocol was found when either identifier is known.
    pub open spec fn is_success(&self) -> bool {
        self.app_id != Proto::UNKNOWN || self.master_id != Proto::UNKNOWN
    }

    pub fn new() -> (r: Proto)
        ensures
            r == (Proto { master_id: 0, app_id: 0, category: 0 }),
    {
        Proto { master_id: 0, app_id: 0, category: 0 }
    }

    pub fn success(&self) -> (r: bool)
        ensures
            r == self.is_success(),
    {
        self.app_id != Proto::UNKNOWN || self.master_id != Proto::UNKNOWN
    }
}

/// Failed `detect` calls tolerated before the give-up path runs.
pub const MAX_DETECT_TIMES: u8 = 10;

#[derive(Clone, Copy, Debug, PartialEq, Eq, Structural)]
pub enum State {
    DetectTrying,
    DetectSuccess,
    DetectError,
}

/// The classifier call whose verdict the machine waits for.
#[derive(Clone, Copy, Debug, PartialEq, Eq, Structural)]
pub enum Asked {
    Nothing,
    Detect,
    GiveUp,
    Guess,
}

/// What a verdict led to.
#[derive(Clone, Copy, Debug, PartialEq, Eq, Structural)]
pub enum Verdict {
    /// nothing changed, or detection goes on with the next packet
    Pending,
    /// a protocol was found: `Detection::proto` holds it
    Detected,
    /// the engine is to be asked for its give-up verdict
    GiveUp,
    /// the engine is to be asked for a guess from the addresses
    Guess,
    /// no protocol could be found
    Failed,
}

/// The protocol-detection lifecycle of one flow, apart from the packets it buffers.
#[derive(Clone, Copy, Debug, PartialEq, Eq, Structural)]
pub struct Detection {
    pub state: State,
    pub detect_times: u8,
    pub asked: Asked,
    pub gave_up: bool,
    pub proto: Proto,
}

pub open spec fn fresh_detection() -> Detection {
    Detection {
        state: State::DetectTrying,
        detect_times: 0,
        asked: Asked::Nothing,
        gave_up: false,
        proto: Proto { master_id: 0, app_id: 0, category: 0 },
    }
}

/// A packet arrived: while trying, the engine is asked to look at it.
pub open spec fn after_packet(d: Detection) -> Detection {
    if d.state == State::DetectTrying {
        Detection { asked: Asked::Detect, ..d }
    } else {
        d
    }
}

/// The answer of `detect`. A failure counts; the one that makes the count exceed
/// `MAX_DETECT_TIMES` starts the give-up path.
pub open spec fn after_detect(d: Detection, p: Proto) -> (Detection, Verdict) {
    if d.state != State::DetectTrying || d.asked != Asked::Detect {
        (d, Verdict::Pending)
    } else if p.is_success() {
        (Detection { state: State::DetectSuccess, asked: Asked::Nothing, proto: p, ..d }, Verdict::Detected)
    } else if d.detect_times > MAX_DETECT_TIMES {
        (Detection { asked: Asked::Nothing, proto: p, ..d }, Verdict::Pending)
    } else if d.detect_times == MAX_DETECT_TIMES && !d.gave_up {
        (
            Detection {
                detect_times: (d.detect_times + 1) as u8,
                asked: Asked::GiveUp,
                gave_up: true,
                proto: p,
                ..d
            },
            Verdict::GiveUp,
        )
    } else {
        (
            Detection { detect_times: (d.detect_times + 1) as u8, asked: Asked::Nothing, proto: p, ..d },
            Verdict::Pending,
        )
    }
}

/// The answer of `give_up`.
pub open spec fn after_give_up(d: Detection, p: Proto) -> (Detection, Verdict) {
    if d.state != State::DetectTrying || d.asked != Asked::GiveUp {
        (d, Verdict::Pending)
    } else if p.is_success() {
        (Detection { state: State::DetectSuccess, asked: Asked::Nothing, proto: p, ..d }, Verdict::Detected)
    } else {
        (Detection { asked: Asked::Guess, proto: p, ..d }, Verdict::Guess)
    }
}

/// The answer of `guess`.
pub open spec fn after_guess(d: Detection, p: Proto) -> (Detection, Verdict) {
    if d.state != State::DetectTrying || d.asked != Asked::Guess {
        (d, Verdict::Pending)
    } else if p.is_success() {
        (Detection { state: State::DetectSuccess, asked: Asked::Nothing, proto: p, ..d }, Verdict::Detected)
    } else {
        (Detection { state: State::DetectError, asked: Asked::Nothing, proto: p, ..d }, Verdict::Failed)
    }
}

/// The flow ends: an undecided detection is pushed through the give-up path, once.
pub open spec fn after_close(d: Detection) -> (Detection, bool) {
    if d.state == State::DetectTrying && !d.gave_up {
        (Detection { asked: Asked::GiveUp, gave_up: true, ..d }, true)
    } else {
        (d, false)
    }
}

impl Detection {
    pub fn new() -> (r: Detection)
        ensures
            r == fresh_detection(),
    {
        Detection {
            state: State::DetectTrying,
            detect_times: 0,
            asked: Asked::Nothing,
            gave_up: false,
            proto: Proto::new(),
        }
    }

    /// Returns whether the packet is to be shown to the engine.
    pub fn on_packet(&mut self) -> (r: bool)
        ensures
            *final(self) == after_packet(*old(self)),
            r == (old(self).state == State::DetectTrying),
    {
        if self.state == State::DetectTrying {
            self.asked = Asked::Detect;
            true
        } else {
            false
        }
    }

    pub fn on_detect(&mut self, proto: Proto) -> (r: Verdict)
        ensures
            (*final(self), r) == after_detect(*old(self), proto),
    {
        if self.state != State::DetectTrying || self.asked != Asked::Detect {
            return Verdict::Pending;
        }
        self.proto = proto;
        self.asked = Asked::Nothing;
        if proto.success() {
            self.state = State::DetectSuccess;
            return Verdict::Detected;
        }
        if self.detect_times > MAX_DETECT_TIMES {
            return Verdict::Pending;
        }
        self.detect_times = self.detect_times + 1;
        if self.detect_times > MAX_DETECT_TIMES && !self.gave_up {
            self.asked = Asked::GiveUp;
            self.gave_up = true;
            Verdict::GiveUp
        } else {
            Verdict::Pending
        }
    }

    pub fn on_give_up(&mut self, proto: Proto) -> (r: Verdict)
        ensures
            (*final(self), r) == after_give_up(*old(self), proto),
    {
        if self.state != State::DetectTrying || self.asked != Asked::GiveUp {
            return Verdict::Pending;
        }
        self.proto = proto;
        if proto.success() {
            self.state = State::DetectSuccess;
            self.asked = Asked::Nothing;
            Verdict::Detected
        } else {
            self.asked = Asked::Guess;
            Verdict::Guess
        }
    }

    pub fn on_guess(&mut self, proto: Proto) -> (r: Verdict)
        ensures
            (*final(self), r) == after_guess(*old(self), proto),
    {
        if self.state != State::DetectTrying || self.asked != Asked::Guess {
            return Verdict::Pending;
        }
        self.proto = proto;
        self.asked = Asked::Nothing;
        if proto.success() {
            self.state = State::DetectSuccess;
            Verdict::Detected
        } else {
            self.state = State::DetectError;
            Verdict::Failed
        }
    }

    /// Returns whether the give-up path is to run now.
    pub fn close(&mut self) -> (r: bool)
        ensures
            (*final(self), r) == after_close(*old(self)),
    {
        if self.state == State::DetectTrying && !self.gave_up {
            self.asked = Asked::GiveUp;
            self.gave_up = true;
            true
        } else {
            false
        }
    }
}

/// The detection after `n` packets whose `detect` verdict was `p`, with no other answer.
pub open spec fn failed_rounds(n: nat, p: Proto) -> Detection
    decreases n,
{
    if n == 0 {
        fresh_detection()
    } else {
        after_detect(after_packet(failed_rounds((n - 1) as nat, p)), p).0
    }
}

/// Retry bound: with failing verdicts the give-up path is asked for exactly once, by the
/// failure that makes the count exceed `MAX_DETECT_TIMES`, and never before.
pub proof fn lemma_give_up_fires_once(n: nat, p: Proto)
    requires
        !p.is_success(),
    ensures
        after_detect(after_packet(failed_rounds(n, p)), p).1 == Verdict::GiveUp <==> n == MAX_DETECT_TIMES,
        failed_rounds(n, p).gave_up <==> n > MAX_DETECT_TIMES,
        failed_rounds(n, p).state == State::DetectTrying,
        failed_rounds(n, p).detect_times == if n <= MAX_DETECT_TIMES { n as int } else { MAX_DETECT_TIMES + 1 },
    decreases n,
{
    if n > 0 {
        lemma_give_up_fires_once((n - 1) as nat, p);
    }
}

/// The give-up path is asked for at most once per flow: whatever asks for it records that
/// it did, and nothing asks again once that is recorded.
pub proof fn lemma_give_up_at_most_once(d: Detection, p: Proto)
    ensures
        after_detect(d, p).1 == Verdict::GiveUp ==> !d.gave_up && after_detect(d, p).0.gave_up,
        after_close(d).1 ==> !d.gave_up && after_close(d).0.gave_up,
        d.gave_up ==> after_detect(d, p).1 != Verdict::GiveUp && !after_close(d).1,
        d.gave_up ==> after_packet(d).gave_up && after_detect(d, p).0.gave_up && after_give_up(d, p).0.gave_up
            && after_guess(d, p).0.gave_up && after_close(d).0.gave_up,
{
}

} // verus!
