//! Randomness under simulation.
//!
//! One seeded generator serves every request for random bytes once it is
//! installed. Until then a request is passed on to the entropy device, which
//! the caller reads.

use rand::rngs::StdRng;
use rand::RngCore;
use vstd::prelude::*;

verus! {

/// `rand::rngs::StdRng`, carried as it is: nothing of what is inside it is
/// known here.
#[verifier::external_type_specification]
#[verifier::external_body]
pub struct ExStdRng(rand::rngs::StdRng);

/// The state of a generator: all that its future output depends on.
pub uninterp spec fn state(rng: StdRng) -> Seq<u8>;

/// What `fill_bytes` makes of a generator in a given state that is asked for
/// `len` bytes: the state it leaves the generator in, and the bytes it writes.
pub uninterp spec fn filled(state: Seq<u8>, len: nat) -> (Seq<u8>, Seq<u8>);

/// `RngCore::fill_bytes` on `StdRng`: fills the whole of `dest` and moves the
/// generator on. The bytes and the generator's next state depend on nothing
/// but its state before and the length of `dest`; they are named, not
/// computed.
#[verifier::external_body]
fn fill_bytes(rng: &mut StdRng, dest: &mut [u8])
    ensures
        (state(*final(rng)), final(dest)@) == filled(state(*old(rng)), old(dest)@.len()),
        final(dest)@.len() == old(dest)@.len(),
{
    rng.fill_bytes(dest)
}

/// The state of a generator after it has served a request for `len` bytes.
pub open spec fn advanced(state: Seq<u8>, len: nat) -> Seq<u8> {
    filled(state, len).0
}

/// The bytes that a request for `len` bytes gets from a generator in a given
/// state: what `fill_bytes` writes, position by position, which is as many
/// bytes as were asked for.
pub open spec fn drawn(state: Seq<u8>, len: nat) -> Seq<u8> {
    Seq::new(len, |i: int| filled(state, len).1[i])
}

/// The place of the process's generator: empty until a generator is
/// installed, and never empty again.
pub struct RngCell {
    rng: Option<StdRng>,
}

impl View for RngCell {
    type V = Option<Seq<u8>>;

    /// The state of the installed generator, if there is one.
    closed spec fn view(&self) -> Option<Seq<u8>> {
        match self.rng {
            Some(rng) => Some(state(rng)),
            None => None,
        }
    }
}

impl RngCell {
    /// An empty cell.
    pub fn new() -> (cell: RngCell)
        ensures
            cell@ is None,
    {
        RngCell { rng: None }
    }

    /// Whether a generator is installed.
    pub fn is_initialized(&self) -> (b: bool)
        ensures
            b == (self@ is Some),
    {
        self.rng.is_some()
    }
}

/// Installs the generator. A cell takes one generator in its life.
pub fn set_rng(cell: &mut RngCell, rng: StdRng)
    requires
        old(cell)@ is None,
    ensures
        final(cell)@ == Some(state(rng)),
{
    cell.rng = Some(rng);
}

/// Exclusive access to the generator, or `None` while none is installed.
/// Whatever the caller draws through the reference, the cell holds the
/// generator as the caller leaves it.
pub fn try_rng(cell: &mut RngCell) -> (access: Option<&mut StdRng>)
    ensures
        match access {
            Some(rng) => old(cell)@ == Some(state(*rng)) && final(cell)@ == Some(
                state(*final(rng)),
            ),
            None => old(cell)@ is None && final(cell)@ is None,
        },
{
    match &mut cell.rng {
        Some(rng) => Some(rng),
        None => None,
    }
}

/// Exclusive access to the installed generator.
pub fn get_rng(cell: &mut RngCell) -> (rng: &mut StdRng)
    requires
        old(cell)@ is Some,
    ensures
        old(cell)@ == Some(state(*rng)),
        final(cell)@ == Some(state(*final(rng))),
{
    match try_rng(cell) {
        Some(rng) => rng,
        None => unreached(),
    }
}

/// Where a request for random bytes stands once the cell has been consulted.
#[derive(Clone, Copy, Debug, PartialEq, Eq)]
pub enum Step<T> {
    /// The request is settled and returns this code.
    Done(T),
    /// No generator is installed and the buffer is untouched: the bytes are to
    /// be read from the entropy device, and the code follows from how that
    /// read went.
    Device,
}

/// What an accepted request does to the cell and to the buffer: an installed
/// generator fills the buffer and moves on; without one both stay as they
/// are.
pub open spec fn served(generator: Option<Seq<u8>>, buf: Seq<u8>) -> (Option<Seq<u8>>, Seq<u8>) {
    match generator {
        Some(state) => (Some(advanced(state, buf.len())), drawn(state, buf.len())),
        None => (None, buf),
    }
}

/// A count of bytes as a signed return value. A count that fits is returned
/// as it is; one that does not, which is more than any buffer holds, is cut to
/// the width of the return value.
pub open spec fn byte_count(len: nat) -> isize {
    len as isize
}

/// The code of a request that went to the entropy device: the count of bytes
/// if the read succeeded, -1 if it failed.
pub open spec fn device_code(read: bool, len: nat) -> isize {
    if read {
        byte_count(len)
    } else {
        -1isize
    }
}

/// Whether `getrandom` takes up a request into this destination: it is there
/// and not empty. A request that is not taken up is refused whatever the cell
/// holds, so a caller who keeps the cell under a lock can tell beforehand
/// whether the lock is needed.
pub fn getrandom_admits(buf: Option<&[u8]>) -> (b: bool)
    ensures
        b == (buf matches Some(d) && d@.len() > 0),
{
    match buf {
        Some(dest) => dest.len() > 0,
        None => false,
    }
}

/// Serves a request for random bytes into `buf`; `None` stands for a
/// destination that is not there. The flags are accepted and ignored.
///
/// A missing or empty destination is refused with -1, and nothing changes.
/// Otherwise the installed generator fills the buffer and the request returns
/// the number of bytes; with no generator installed the request goes to the
/// entropy device, and its code is what `getrandom_device` makes of the read.
pub fn getrandom(cell: &mut RngCell, buf: Option<&mut [u8]>, _flags: u32) -> (step: Step<isize>)
    ensures
        buf is None ==> step == Step::Done(-1isize) && final(cell)@ == old(cell)@,
        buf matches Some(d) ==> {
            &&& final(d)@.len() == d@.len()
            &&& d@.len() == 0 ==> {
                &&& step == Step::Done(-1isize)
                &&& (final(cell)@, final(d)@) == (old(cell)@, d@)
            }
            &&& d@.len() > 0 ==> {
                &&& step == if old(cell)@ is Some {
                    Step::Done(byte_count(d@.len()))
                } else {
                    Step::Device
                }
                &&& (final(cell)@, final(d)@) == served(old(cell)@, d@)
            }
        },
{
    match buf {
        Some(dest) => {
            let buflen = dest.len();
            if buflen > 0 {
                match try_rng(cell) {
                    Some(rng) => {
                        fill_bytes(rng, dest);
                        Step::Done(
                            #[verifier::truncate]
                            (buflen as isize),
                        )
                    },
                    None => Step::Device,
                }
            } else {
                Step::Done(-1)
            }
        },
        None => Step::Done(-1),
    }
}

/// Settles a request that went to the entropy device, given whether the read
/// of `buflen` bytes succeeded.
pub fn getrandom_device(read: bool, buflen: usize) -> (code: isize)
    ensures
        code == device_code(read, buflen as nat),
{
    if read {
        #[verifier::truncate]
        (buflen as isize)
    } else {
        -1
    }
}

/// The most bytes that one entropy request may ask for.
pub const ENTROPY_MAX: usize = 256;

/// The code of an entropy request, from the code of the randomness request
/// that served it: -1 stays -1, and anything else is success, 0.
pub open spec fn entropy_code(code: isize) -> i32 {
    if code == -1 {
        -1i32
    } else {
        0i32
    }
}

/// Turns the code of a randomness request into that of an entropy
/// request.
pub fn getentropy_code(code: isize) -> (r: i32)
    ensures
        r == entropy_code(code),
{
    match code {
        -1 => -1,
        _ => 0,
    }
}

/// Whether `getentropy` takes up a request into this destination: it is
/// there, not empty, and no longer than `ENTROPY_MAX`. A request that is not
/// taken up is refused whatever the cell holds.
pub fn getentropy_admits(buf: Option<&[u8]>) -> (b: bool)
    ensures
        b == (buf matches Some(d) && 0 < d@.len() <= ENTROPY_MAX),
{
    match buf {
        Some(dest) => 0 < dest.len() && dest.len() <= ENTROPY_MAX,
        None => false,
    }
}

/// Serves a request for entropy into `buf`; `None` stands for a destination
/// that is not there.
///
/// A request for more than `ENTROPY_MAX` bytes is refused with -1, and so is a
/// missing or empty destination; nothing changes then. Otherwise the
/// installed generator fills the buffer and the request returns 0; with no
/// generator installed the request goes to the entropy device, and its code is
/// `getentropy_code` of what `getrandom_device` makes of the read.
pub fn getentropy(cell: &mut RngCell, buf: Option<&mut [u8]>) -> (step: Step<i32>)
    ensures
        buf is None ==> step == Step::Done(-1i32) && final(cell)@ == old(cell)@,
        buf matches Some(d) ==> {
            &&& final(d)@.len() == d@.len()
            &&& d@.len() == 0 || d@.len() > ENTROPY_MAX ==> {
                &&& step == Step::Done(-1i32)
                &&& (final(cell)@, final(d)@) == (old(cell)@, d@)
            }
            &&& 0 < d@.len() <= ENTROPY_MAX ==> {
                &&& step == if old(cell)@ is Some {
                    Step::Done(0i32)
                } else {
                    Step::Device
                }
                &&& (final(cell)@, final(d)@) == served(old(cell)@, d@)
            }
        },
{
    match buf {
        Some(dest) => {
            if dest.len() > ENTROPY_MAX {
                return Step::Done(-1);
            }
            match getrandom(cell, Some(dest), 0) {
                Step::Done(code) => Step::Done(getentropy_code(code)),
                Step::Device => Step::Device,
            }
        },
        None => match getrandom(cell, None, 0) {
            Step::Done(code) => Step::Done(getentropy_code(code)),
            Step::Device => Step::Device,
        },
    }
}

/// The code of a request under the other convention, from the code of the
/// randomness request that served it: -1 is failure and stays -1, and
/// anything else is success, 0.
pub open spec fn generate_code(code: isize) -> i32 {
    if code == -1 {
        -1i32
    } else {
        0i32
    }
}

/// Turns the code of a randomness request into the 0 or -1 of
/// `CCRandomGenerateBytes`.
pub fn generate_bytes_code(code: isize) -> (r: i32)
    ensures
        r == generate_code(code),
{
    if code != -1 {
        0
    } else {
        -1
    }
}

/// Serves a request for random bytes under its other name, which reports 0 or
/// -1: the request is `getrandom`'s, and only the code differs. A request that
/// the generator serves returns 0. Where the request goes to the entropy
/// device, its code is `generate_bytes_code` of what `getrandom_device` makes
/// of the read.
#[allow(non_snake_case)]
pub fn CCRandomGenerateBytes(cell: &mut RngCell, buf: Option<&mut [u8]>) -> (step: Step<i32>)
    ensures
        buf is None ==> step == Step::Done(-1i32) && final(cell)@ == old(cell)@,
        buf matches Some(d) ==> {
            &&& final(d)@.len() == d@.len()
            &&& d@.len() == 0 ==> {
                &&& step == Step::Done(-1i32)
                &&& (final(cell)@, final(d)@) == (old(cell)@, d@)
            }
            &&& d@.len() > 0 ==> {
                &&& step == if old(cell)@ is Some {
                    Step::Done(generate_code(byte_count(d@.len())))
                } else {
                    Step::Device
                }
                &&& old(cell)@ is Some && d@.len() <= isize::MAX ==> step == Step::Done(0i32)
                &&& (final(cell)@, final(d)@) == served(old(cell)@, d@)
            }
        },
{
    match getrandom(cell, buf, 0) {
        Step::Done(code) => Step::Done(generate_bytes_code(code)),
        Step::Device => Step::Device,
    }
}

/// The state of a generator after it has served requests of these lengths,
/// one after the other.
pub open spec fn after_requests(state: Seq<u8>, lens: Seq<nat>) -> Seq<u8>
    decreases lens.len(),
{
    if lens.len() == 0 {
        state
    } else {
        advanced(after_requests(state, lens.drop_last()), lens.last())
    }
}

/// The bytes that requests of these lengths get from a generator that starts
/// in a given state, one after the other, as one stream.
pub open spec fn stream(state: Seq<u8>, lens: Seq<nat>) -> Seq<u8>
    decreases lens.len(),
{
    if lens.len() == 0 {
        Seq::empty()
    } else {
        stream(state, lens.drop_last()) + drawn(
            after_requests(state, lens.drop_last()),
            lens.last(),
        )
    }
}

/// The sum of the lengths.
pub open spec fn total(lens: Seq<nat>) -> nat
    decreases lens.len(),
{
    if lens.len() == 0 {
        0
    } else {
        total(lens.drop_last()) + lens.last()
    }
}

/// Two generators that start in the same state give the same bytes to the
/// same requests made in the same order, and end in the same state.
pub proof fn replay_is_identical(first: Seq<u8>, second: Seq<u8>, lens: Seq<nat>)
    requires
        first == second,
    ensures
        stream(first, lens) == stream(second, lens),
        after_requests(first, lens) == after_requests(second, lens),
{
}

/// Requests get, between them, exactly as many bytes as they ask for.
pub proof fn stream_serves_the_total(state: Seq<u8>, lens: Seq<nat>)
    ensures
        stream(state, lens).len() == total(lens),
    decreases lens.len(),
{
    if lens.len() > 0 {
        stream_serves_the_total(state, lens.drop_last());
    }
}

/// Requests served one after the other share one stream: those that come
/// later are served from the state in which the earlier ones left the
/// generator, so nothing of the stream is handed out twice and nothing is
/// passed over.
pub proof fn requests_compose(state: Seq<u8>, earlier: Seq<nat>, later: Seq<nat>)
    ensures
        after_requests(state, earlier + later) == after_requests(
            after_requests(state, earlier),
            later,
        ),
        stream(state, earlier + later) == stream(state, earlier) + stream(
            after_requests(state, earlier),
            later,
        ),
        total(earlier + later) == total(earlier) + total(later),
    decreases later.len(),
{
    if later.len() == 0 {
        assert(earlier + later == earlier);
    } else {
        requests_compose(state, earlier, later.drop_last());
        assert((earlier + later).drop_last() == earlier + later.drop_last());
        assert((earlier + later).last() == later.last());
    }
}

} // verus!
