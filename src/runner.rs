//! Host-side runner settings: user-presence policy and device serial.
use vstd::prelude::*;

verus! {

/// How the host runner answers user-presence checks, as chosen on its
/// command line.
#[derive(Clone, Copy, Debug, PartialEq, Eq, Structural)]
pub enum UserPresenceMechanism {
    AcceptAll,
    RejectAll,
    Interactive,
    Signal,
}

impl Default for UserPresenceMechanism {
    fn default() -> (r: UserPresenceMechanism)
        ensures
            r == UserPresenceMechanism::AcceptAll,
    {
        UserPresenceMechanism::AcceptAll
    }
}

/// The user-presence policy the runner applies.
#[derive(Clone, Copy, Debug, PartialEq, Eq, Structural)]
pub enum UserPresence {
    /// Every check gets this answer.
    Fixed(bool),
    /// Each check prompts on the terminal.
    Interactive,
    /// A check is accepted shortly after an external signal.
    Signal,
}

pub open spec fn presence_of(m: UserPresenceMechanism) -> UserPresence {
    match m {
        UserPresenceMechanism::AcceptAll => UserPresence::Fixed(true),
        UserPresenceMechanism::RejectAll => UserPresence::Fixed(false),
        UserPresenceMechanism::Interactive => UserPresence::Interactive,
        UserPresenceMechanism::Signal => UserPresence::Signal,
    }
}

impl From<UserPresenceMechanism> for UserPresence {
    fn from(user_presence: UserPresenceMechanism) -> (r: UserPresence)
        ensures
            r == presence_of(user_presence),
    {
        match user_presence {
            UserPresenceMechanism::AcceptAll => UserPresence::Fixed(true),
            UserPresenceMechanism::RejectAll => UserPresence::Fixed(false),
            UserPresenceMechanism::Interactive => UserPresence::Interactive,
            UserPresenceMechanism::Signal => UserPresence::Signal,
        }
    }
}

impl vstd::std_specs::convert::FromSpecImpl<UserPresenceMechanism> for UserPresence {
    open spec fn obeys_from_spec() -> bool {
        true
    }

    open spec fn from_spec(v: UserPresenceMechanism) -> UserPresence {
        presence_of(v)
    }
}

/// Big-endian bytes of `s`, most significant first.
pub open spec fn be_bytes(s: u128) -> Seq<u8> {
    Seq::new(16, |i: int| (s >> ((8 * (15 - i)) as u128)) as u8)
}

/// Big-endian bytes of a serial number.
pub fn serial_bytes(s: u128) -> (r: [u8; 16])
    ensures
        r@ == be_bytes(s),
{
    let mut r: [u8; 16] = [0u8; 16];
    let mut i: usize = 0;
    while i < 16
        invariant
            i <= 16,
            r@.len() == 16,
            forall|j: int| 0 <= j < i ==> r@[j] == be_bytes(s)[j],
        decreases 16 - i,
    {
        let shift: u128 = (8 * (15 - i)) as u128;
        r.set(i, (s >> shift) as u8);
        i = i + 1;
    }
    proof {
        assert(r@ =~= be_bytes(s));
    }
    r
}

/// Relies on rand_core's `OsRng::try_fill_bytes`: fills the buffer from the
/// operating system's random source, or reports that the source failed.
/// Nothing is known of the bytes.
#[verifier::external_body]
fn random_uuid() -> (r: Option<[u8; 16]>) {
    let mut uuid = [0u8; 16];
    match rand_core::RngCore::try_fill_bytes(&mut rand_core::OsRng, &mut uuid) {
        Ok(()) => Some(uuid),
        Err(_) => None,
    }
}

/// The virtual device's identity.
pub struct Runner {
    serial: [u8; 16],
}

impl Runner {
    pub closed spec fn serial(&self) -> Seq<u8> {
        self.serial@
    }

    /// The runner for `serial`, or for `random` when no serial is given.
    pub fn with_fallback(serial: Option<u128>, random: [u8; 16]) -> (r: Runner)
        ensures
            r.serial() == match serial {
                Some(s) => be_bytes(s),
                None => random@,
            },
    {
        let serial = match serial {
            Some(s) => serial_bytes(s),
            None => random,
        };
        Runner { serial }
    }

    /// The runner for `serial`, or for a fresh random identity when none is
    /// given; `None` when that identity cannot be drawn.
    pub fn new(serial: Option<u128>) -> (r: Option<Runner>)
        ensures
            serial matches Some(s) ==> r matches Some(x) && x.serial() == be_bytes(s),
            r matches Some(x) ==> x.serial().len() == 16,
    {
        match serial {
            Some(s) => Some(Runner { serial: serial_bytes(s) }),
            None => match random_uuid() {
                Some(random) => Some(Runner::with_fallback(None, random)),
                None => None,
            },
        }
    }

    pub fn uuid(&self) -> (r: [u8; 16])
        ensures
            r@ == self.serial(),
    {
        self.serial
    }
}

} // verus!
