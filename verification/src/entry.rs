//! The orchestrator of the authorization check, as an explicit state
//! machine. The machine owns every decision; a driver performs the host
//! queries and the calls into the delegated verification capability, and
//! hands each answer back as an [`Event`]. Each [`step`](Machine::step)
//! returns the next [`Step`] the driver must take. The run is linear and
//! terminal on the first failure:
//!
//! fetch argument → fetch and decode witness → match fingerprint → fetch the
//! digest inputs (zero-locked witness, transaction hash, same-group
//! witnesses, trailing witnesses) → verify four chunks in order → accept.

use vstd::prelude::*;
use vstd::bytes::spec_u32_from_le_bytes;
use vstd::slice::{slice_subrange, slice_to_vec};
use crate::commitment::{commitment_stream, generate_message, MESSAGE_LEN};
use crate::error::{host_error, Error, HostError};
use crate::fingerprint::{ckb_blake2b_256, compute_pub_key_hash, fingerprint, FINGERPRINT_LEN};
use crate::rsa::{generate_rsa_info, rsa_info, validation_error};
use crate::witness::{
    decode_witness, RsaWitness, MESSAGE_SINGLE_SIZE, PUB_KEY_E_OFFSET, PUB_KEY_N_OFFSET,
    SIGNATURE_LEN, SIGNATURE_TOTAL_LEN, SUB_SIGNATURE_LEN,
};

verus! {

/// Where the check stands: which answer it waits for next.
pub enum Phase {
    /// Waiting for the 20-byte script argument.
    AwaitArgs,
    /// Waiting for the lock field of the authorization witness.
    AwaitWitness,
    /// Waiting for the zero-locked authorization witness bytes.
    AwaitDigestWitness,
    /// Waiting for the transaction hash.
    AwaitTxHash,
    /// Enumerating the same-group witnesses from index one upward.
    AwaitGroupWitness,
    /// Waiting for the transaction's input count.
    AwaitInputCount,
    /// Enumerating the witnesses from the input count upward.
    AwaitTrailingWitness,
    /// Waiting for the status of one chunk verification.
    AwaitVerdict,
    /// Accepted or rejected; no further step is taken.
    Finished,
}

/// An answer handed back by the driver.
pub enum Event {
    /// The bytes the pending query asked for.
    Bytes(Vec<u8>),
    /// The authorization witness exists but its lock field is absent.
    MissingField,
    /// The pending host query failed.
    Failed(HostError),
    /// The transaction's input count.
    Count(u64),
    /// The status code one chunk verification returned; zero is success.
    Status(i32),
}

/// What the driver must do next.
pub enum Step {
    /// Fetch the script argument of the spent cell.
    GetArgs,
    /// Fetch the lock field of the witness at group index zero.
    GetWitness,
    /// Serialize the authorization witness with its lock field replaced by
    /// zero bytes of the fixed total length, and hand back those bytes.
    GetDigestWitness,
    /// Fetch the transaction hash.
    GetTxHash,
    /// Fetch the witness at this index of the authorization's input group,
    /// or report that no such index exists.
    GetGroupWitness(u64),
    /// Fetch the transaction's input count.
    GetInputCount,
    /// Fetch the witness at this absolute index, or report that no such
    /// index exists.
    GetTrailingWitness(u64),
    /// Call the verification capability with this request blob and this
    /// message chunk, and hand back its status code.
    VerifyChunk(Vec<u8>, Vec<u8>),
    /// The check accepted.
    Accept,
    /// The check rejected with this failure kind.
    Reject(Error),
}

/// The state of one authorization check.
pub struct Machine {
    /// Which answer the machine waits for.
    pub phase: Phase,
    /// The authorization condition: the fingerprint the key must match.
    pub args: Vec<u8>,
    /// The decoded signature and public key, once the witness is parsed.
    pub witness: Option<RsaWitness>,
    /// The zero-locked authorization witness bound into the digest.
    pub digest_witness: Vec<u8>,
    /// The transaction hash bound into the digest.
    pub tx_hash: Vec<u8>,
    /// The same-group witnesses received so far, in ascending index order.
    pub group_witnesses: Vec<Vec<u8>>,
    /// The trailing witnesses received so far, in ascending index order.
    pub trailing_witnesses: Vec<Vec<u8>>,
    /// The next witness index to query while enumerating.
    pub next_index: u64,
    /// The commitment digest, once built.
    pub message: Vec<u8>,
    /// The chunk whose verification status is awaited.
    pub next_chunk: usize,
}

/// Holds when the machine finished the step rejecting with `err`.
pub open spec fn rejected(m: Machine, s: Step, err: Error) -> bool {
    &&& m.phase is Finished
    &&& s matches Step::Reject(e) && e == err
}

/// Holds when `s` asks the driver to verify chunk `k` of the signature
/// `sig` under exponent `e` and modulus `n`, against chunk `k` of `message`.
pub open spec fn chunk_request(
    e: u32,
    n: Seq<u8>,
    sig: Seq<u8>,
    message: Seq<u8>,
    k: int,
    s: Step,
) -> bool {
    &&& s matches Step::VerifyChunk(info, msg)
    &&& info@ == rsa_info(
        n,
        e,
        sig.subrange(k * (SUB_SIGNATURE_LEN as int), (k + 1) * (SUB_SIGNATURE_LEN as int)),
    )
    &&& msg@ == message.subrange(
        k * (MESSAGE_SINGLE_SIZE as int),
        (k + 1) * (MESSAGE_SINGLE_SIZE as int),
    )
}

impl Machine {
    /// The parsed key and signature, as plain values.
    pub open spec fn key_view(self) -> Option<(u32, Seq<u8>, Seq<u8>)> {
        match self.witness {
            Some(w) => Some((w.pub_key_e, w.pub_key_n@, w.signature@)),
            None => None,
        }
    }

    /// Holds once a witness is parsed whose key fingerprint equals the
    /// authorization argument.
    pub open spec fn key_matches(self) -> bool {
        &&& self.witness matches Some(w)
        &&& w.wf()
        &&& fingerprint(w.pub_key_e, w.pub_key_n@) == self.args@
    }

    /// Holds once `message` is the commitment digest of the digest inputs
    /// held by the machine.
    pub open spec fn message_ok(self) -> bool {
        &&& self.message@ == ckb_blake2b_256(
            commitment_stream(
                self.tx_hash@,
                self.digest_witness@,
                self.group_witnesses.deep_view(),
                self.trailing_witnesses.deep_view(),
            ),
        )
        &&& self.message@.len() == MESSAGE_LEN
    }

    /// The machine's invariant: what each phase guarantees of the state.
    /// In particular, from the moment the witness phase is passed, the
    /// parsed key's fingerprint equals the authorization argument: no chunk
    /// verification is ever reached with a non-matching key.
    pub open spec fn inv(self) -> bool {
        match self.phase {
            Phase::AwaitArgs => true,
            Phase::AwaitWitness => self.args@.len() == FINGERPRINT_LEN,
            Phase::AwaitDigestWitness => self.args@.len() == FINGERPRINT_LEN
                && self.key_matches(),
            Phase::AwaitTxHash => self.args@.len() == FINGERPRINT_LEN && self.key_matches(),
            Phase::AwaitGroupWitness => self.args@.len() == FINGERPRINT_LEN
                && self.key_matches(),
            Phase::AwaitInputCount => self.args@.len() == FINGERPRINT_LEN && self.key_matches(),
            Phase::AwaitTrailingWitness => self.args@.len() == FINGERPRINT_LEN
                && self.key_matches(),
            Phase::AwaitVerdict => self.args@.len() == FINGERPRINT_LEN && self.key_matches()
                && self.message_ok() && self.next_chunk < 4,
            Phase::Finished => true,
        }
    }

    /// Which events answer the pending query. The index bound excludes the
    /// one state the scheme cannot represent, an enumeration past the
    /// largest index.
    pub open spec fn accepts(self, event: Event) -> bool {
        match self.phase {
            Phase::AwaitArgs => event is Bytes || event is Failed,
            Phase::AwaitWitness => event is Bytes || event is MissingField || event is Failed,
            Phase::AwaitDigestWitness => event is Bytes || event is Failed,
            Phase::AwaitTxHash => event is Bytes || event is Failed,
            Phase::AwaitGroupWitness => (event is Bytes && self.next_index < u64::MAX)
                || event is Failed,
            Phase::AwaitInputCount => event is Count || event is Failed,
            Phase::AwaitTrailingWitness => (event is Bytes && self.next_index < u64::MAX)
                || event is Failed,
            Phase::AwaitVerdict => event is Status,
            Phase::Finished => false,
        }
    }
}

/// The key and the accumulated state the step left untouched.
pub open spec fn same_key(pre: Machine, m: Machine) -> bool {
    &&& m.args@ == pre.args@
    &&& m.key_view() == pre.key_view()
}

/// The digest inputs the step left untouched.
pub open spec fn same_digest_inputs(pre: Machine, m: Machine) -> bool {
    &&& m.digest_witness@ == pre.digest_witness@
    &&& m.tx_hash@ == pre.tx_hash@
    &&& m.group_witnesses.deep_view() == pre.group_witnesses.deep_view()
    &&& m.trailing_witnesses.deep_view() == pre.trailing_witnesses.deep_view()
}

/// The transition relation of the check: how one step turns the machine
/// `pre`, answered with `event`, into `m`, and which step `s` it returns.
pub open spec fn stepped(pre: Machine, event: Event, m: Machine, s: Step) -> bool {
    match pre.phase {
        Phase::AwaitArgs => match event {
            Event::Bytes(b) => if b@.len() == FINGERPRINT_LEN {
                &&& m.phase is AwaitWitness
                &&& m.args@ == b@
                &&& same_digest_inputs(pre, m)
                &&& s is GetWitness
            } else {
                rejected(m, s, Error::InvalidArgument)
            },
            Event::Failed(h) => rejected(m, s, host_error(h)),
            _ => false,
        },
        Phase::AwaitWitness => match event {
            Event::Bytes(w) => if w@.len() != SIGNATURE_TOTAL_LEN {
                rejected(m, s, Error::Encoding)
            } else {
                let e = spec_u32_from_le_bytes(
                    w@.subrange(PUB_KEY_E_OFFSET as int, PUB_KEY_N_OFFSET as int),
                );
                let n = w@.subrange(PUB_KEY_N_OFFSET as int, SIGNATURE_TOTAL_LEN as int);
                if fingerprint(e, n) == pre.args@ {
                    &&& m.phase is AwaitDigestWitness
                    &&& m.args@ == pre.args@
                    &&& m.key_view() matches Some(k) && k == (
                        e,
                        n,
                        w@.subrange(0, SIGNATURE_LEN as int),
                    )
                    &&& same_digest_inputs(pre, m)
                    &&& s is GetDigestWitness
                } else {
                    rejected(m, s, Error::WrongPubKey)
                }
            },
            Event::MissingField => rejected(m, s, Error::Encoding),
            Event::Failed(h) => rejected(m, s, host_error(h)),
            _ => false,
        },
        Phase::AwaitDigestWitness => match event {
            Event::Bytes(dw) => {
                &&& m.phase is AwaitTxHash
                &&& same_key(pre, m)
                &&& m.digest_witness@ == dw@
                &&& m.tx_hash@ == pre.tx_hash@
                &&& m.group_witnesses.deep_view() == pre.group_witnesses.deep_view()
                &&& m.trailing_witnesses.deep_view() == pre.trailing_witnesses.deep_view()
                &&& s is GetTxHash
            },
            Event::Failed(h) => rejected(m, s, host_error(h)),
            _ => false,
        },
        Phase::AwaitTxHash => match event {
            Event::Bytes(h) => {
                &&& m.phase is AwaitGroupWitness
                &&& same_key(pre, m)
                &&& m.digest_witness@ == pre.digest_witness@
                &&& m.tx_hash@ == h@
                &&& m.group_witnesses.deep_view() == pre.group_witnesses.deep_view()
                &&& m.trailing_witnesses.deep_view() == pre.trailing_witnesses.deep_view()
                &&& m.next_index == 1u64
                &&& s matches Step::GetGroupWitness(i) && i == 1u64
            },
            Event::Failed(h) => rejected(m, s, host_error(h)),
            _ => false,
        },
        Phase::AwaitGroupWitness => match event {
            Event::Bytes(w) => {
                &&& m.phase is AwaitGroupWitness
                &&& same_key(pre, m)
                &&& m.digest_witness@ == pre.digest_witness@
                &&& m.tx_hash@ == pre.tx_hash@
                &&& m.group_witnesses.deep_view() == pre.group_witnesses.deep_view().push(w@)
                &&& m.trailing_witnesses.deep_view() == pre.trailing_witnesses.deep_view()
                &&& m.next_index == pre.next_index + 1
                &&& s matches Step::GetGroupWitness(i) && i == m.next_index
            },
            Event::Failed(h) => if h is IndexOutOfBound {
                &&& m.phase is AwaitInputCount
                &&& same_key(pre, m)
                &&& same_digest_inputs(pre, m)
                &&& s is GetInputCount
            } else {
                rejected(m, s, host_error(h))
            },
            _ => false,
        },
        Phase::AwaitInputCount => match event {
            Event::Count(c) => {
                &&& m.phase is AwaitTrailingWitness
                &&& same_key(pre, m)
                &&& same_digest_inputs(pre, m)
                &&& m.next_index == c
                &&& s matches Step::GetTrailingWitness(i) && i == c
            },
            Event::Failed(h) => rejected(m, s, host_error(h)),
            _ => false,
        },
        Phase::AwaitTrailingWitness => match event {
            Event::Bytes(w) => {
                &&& m.phase is AwaitTrailingWitness
                &&& same_key(pre, m)
                &&& m.digest_witness@ == pre.digest_witness@
                &&& m.tx_hash@ == pre.tx_hash@
                &&& m.group_witnesses.deep_view() == pre.group_witnesses.deep_view()
                &&& m.trailing_witnesses.deep_view() == pre.trailing_witnesses.deep_view().push(
                    w@,
                )
                &&& m.next_index == pre.next_index + 1
                &&& s matches Step::GetTrailingWitness(i) && i == m.next_index
            },
            Event::Failed(h) => if h is IndexOutOfBound {
                &&& m.phase is AwaitVerdict
                &&& same_key(pre, m)
                &&& same_digest_inputs(pre, m)
                &&& m.next_chunk == 0usize
                &&& m.message_ok()
                &&& (m.key_view() matches Some(k) && chunk_request(
                    k.0,
                    k.1,
                    k.2,
                    m.message@,
                    0,
                    s,
                ))
            } else {
                rejected(m, s, host_error(h))
            },
            _ => false,
        },
        Phase::AwaitVerdict => match event {
            Event::Status(code) => if code != 0 {
                rejected(m, s, validation_error(code))
            } else if pre.next_chunk == 3 {
                &&& m.phase is Finished
                &&& s is Accept
            } else {
                &&& m.phase is AwaitVerdict
                &&& same_key(pre, m)
                &&& same_digest_inputs(pre, m)
                &&& m.message@ == pre.message@
                &&& m.next_chunk == pre.next_chunk + 1
                &&& (m.key_view() matches Some(k) && chunk_request(
                    k.0,
                    k.1,
                    k.2,
                    m.message@,
                    pre.next_chunk + 1,
                    s,
                ))
            },
            _ => false,
        },
        Phase::Finished => false,
    }
}

/// Compares two byte strings.
fn bytes_eq(a: &[u8], b: &[u8]) -> (r: bool)
    ensures
        r == (a@ == b@),
{
    if a.len() != b.len() {
        assert(a@ != b@);
        return false;
    }
    let n = a.len();
    let mut i: usize = 0;
    while i < n
        invariant
            n == a@.len() == b@.len(),
            i <= n,
            forall|k: int| 0 <= k < i ==> a@[k] == b@[k],
        decreases n - i,
    {
        if a[i] != b[i] {
            assert(a@[i as int] != b@[i as int]);
            return false;
        }
        i += 1;
    }
    assert(a@ =~= b@);
    true
}

/// Builds the step asking the driver to verify chunk `k`.
fn make_chunk_request(w: &RsaWitness, message: &Vec<u8>, k: usize) -> (s: Step)
    requires
        w.wf(),
        message@.len() == MESSAGE_LEN,
        k < 4,
    ensures
        chunk_request(w.pub_key_e, w.pub_key_n@, w.signature@, message@, k as int, s),
{
    let sig_chunk = slice_subrange(
        w.signature.as_slice(),
        k * SUB_SIGNATURE_LEN,
        (k + 1) * SUB_SIGNATURE_LEN,
    );
    let info = match generate_rsa_info(w.pub_key_n.as_slice(), w.pub_key_e, sig_chunk) {
        Ok(v) => v,
        Err(_) => {
            proof {
                assert(false);
            }
            Vec::new()
        },
    };
    let msg = slice_to_vec(
        slice_subrange(message.as_slice(), k * MESSAGE_SINGLE_SIZE, (k + 1) * MESSAGE_SINGLE_SIZE),
    );
    Step::VerifyChunk(info, msg)
}

impl Machine {
    /// Starts one authorization check: a fresh machine, asking first for
    /// the script argument.
    pub fn start() -> (r: (Machine, Step))
        ensures
            r.0.inv(),
            r.0.phase is AwaitArgs,
            r.0.group_witnesses.deep_view() == Seq::<Seq<u8>>::empty(),
            r.0.trailing_witnesses.deep_view() == Seq::<Seq<u8>>::empty(),
            r.1 is GetArgs,
    {
        let m = Machine {
            phase: Phase::AwaitArgs,
            args: Vec::new(),
            witness: None,
            digest_witness: Vec::new(),
            tx_hash: Vec::new(),
            group_witnesses: Vec::new(),
            trailing_witnesses: Vec::new(),
            next_index: 0,
            message: Vec::new(),
            next_chunk: 0,
        };
        assert(m.group_witnesses.deep_view() =~= Seq::<Seq<u8>>::empty());
        assert(m.trailing_witnesses.deep_view() =~= Seq::<Seq<u8>>::empty());
        (m, Step::GetArgs)
    }

    /// Feeds the machine the answer to its pending query and returns the
    /// next step of the check.
    pub fn step(&mut self, event: Event) -> (s: Step)
        requires
            old(self).inv(),
            old(self).accepts(event),
        ensures
            final(self).inv(),
            stepped(*old(self), event, *final(self), s),
    {
        match self.phase {
            Phase::AwaitArgs => match event {
                Event::Bytes(b) => {
                    if b.len() == FINGERPRINT_LEN {
                        self.args = b;
                        self.phase = Phase::AwaitWitness;
                        Step::GetWitness
                    } else {
                        self.phase = Phase::Finished;
                        Step::Reject(Error::InvalidArgument)
                    }
                },
                Event::Failed(h) => {
                    self.phase = Phase::Finished;
                    Step::Reject(Error::from(h))
                },
                _ => {
                    proof {
                        assert(false);
                    }
                    Step::Reject(Error::Encoding)
                },
            },
            Phase::AwaitWitness => match event {
                Event::Bytes(w) => match decode_witness(w.as_slice()) {
                    Ok(parsed) => {
                        let hash = match compute_pub_key_hash(
                            parsed.pub_key_n.as_slice(),
                            parsed.pub_key_e,
                        ) {
                            Ok(h) => h,
                            Err(_) => {
                                proof {
                                    assert(false);
                                }
                                Vec::new()
                            },
                        };
                        if bytes_eq(hash.as_slice(), self.args.as_slice()) {
                            self.witness = Some(parsed);
                            self.phase = Phase::AwaitDigestWitness;
                            Step::GetDigestWitness
                        } else {
                            self.phase = Phase::Finished;
                            Step::Reject(Error::WrongPubKey)
                        }
                    },
                    Err(err) => {
                        self.phase = Phase::Finished;
                        Step::Reject(err)
                    },
                },
                Event::MissingField => {
                    self.phase = Phase::Finished;
                    Step::Reject(Error::Encoding)
                },
                Event::Failed(h) => {
                    self.phase = Phase::Finished;
                    Step::Reject(Error::from(h))
                },
                _ => {
                    proof {
                        assert(false);
                    }
                    Step::Reject(Error::Encoding)
                },
            },
            Phase::AwaitDigestWitness => match event {
                Event::Bytes(dw) => {
                    self.digest_witness = dw;
                    self.phase = Phase::AwaitTxHash;
                    Step::GetTxHash
                },
                Event::Failed(h) => {
                    self.phase = Phase::Finished;
                    Step::Reject(Error::from(h))
                },
                _ => {
                    proof {
                        assert(false);
                    }
                    Step::Reject(Error::Encoding)
                },
            },
            Phase::AwaitTxHash => match event {
                Event::Bytes(h) => {
                    self.tx_hash = h;
                    self.next_index = 1;
                    self.phase = Phase::AwaitGroupWitness;
                    Step::GetGroupWitness(1)
                },
                Event::Failed(h) => {
                    self.phase = Phase::Finished;
                    Step::Reject(Error::from(h))
                },
                _ => {
                    proof {
                        assert(false);
                    }
                    Step::Reject(Error::Encoding)
                },
            },
            Phase::AwaitGroupWitness => match event {
                Event::Bytes(w) => {
                    let ghost wv = w@;
                    self.group_witnesses.push(w);
                    self.next_index = self.next_index + 1;
                    proof {
                        assert(self.group_witnesses.deep_view() =~~= old(
                            self,
                        ).group_witnesses.deep_view().push(wv));
                    }
                    Step::GetGroupWitness(self.next_index)
                },
                Event::Failed(h) => match h {
                    HostError::IndexOutOfBound => {
                        self.phase = Phase::AwaitInputCount;
                        Step::GetInputCount
                    },
                    _ => {
                        self.phase = Phase::Finished;
                        Step::Reject(Error::from(h))
                    },
                },
                _ => {
                    proof {
                        assert(false);
                    }
                    Step::Reject(Error::Encoding)
                },
            },
            Phase::AwaitInputCount => match event {
                Event::Count(c) => {
                    self.next_index = c;
                    self.phase = Phase::AwaitTrailingWitness;
                    Step::GetTrailingWitness(c)
                },
                Event::Failed(h) => {
                    self.phase = Phase::Finished;
                    Step::Reject(Error::from(h))
                },
                _ => {
                    proof {
                        assert(false);
                    }
                    Step::Reject(Error::Encoding)
                },
            },
            Phase::AwaitTrailingWitness => match event {
                Event::Bytes(w) => {
                    let ghost wv = w@;
                    self.trailing_witnesses.push(w);
                    self.next_index = self.next_index + 1;
                    proof {
                        assert(self.trailing_witnesses.deep_view() =~~= old(
                            self,
                        ).trailing_witnesses.deep_view().push(wv));
                    }
                    Step::GetTrailingWitness(self.next_index)
                },
                Event::Failed(h) => match h {
                    HostError::IndexOutOfBound => {
                        self.message = generate_message(
                            self.tx_hash.as_slice(),
                            self.digest_witness.as_slice(),
                            &self.group_witnesses,
                            &self.trailing_witnesses,
                        );
                        self.next_chunk = 0;
                        self.phase = Phase::AwaitVerdict;
                        match &self.witness {
                            Some(w) => make_chunk_request(w, &self.message, 0),
                            None => {
                                proof {
                                    assert(false);
                                }
                                Step::Reject(Error::Encoding)
                            },
                        }
                    },
                    _ => {
                        self.phase = Phase::Finished;
                        Step::Reject(Error::from(h))
                    },
                },
                _ => {
                    proof {
                        assert(false);
                    }
                    Step::Reject(Error::Encoding)
                },
            },
            Phase::AwaitVerdict => match event {
                Event::Status(code) => {
                    if code != 0 {
                        self.phase = Phase::Finished;
                        match crate::rsa::interpret_validation_code(code) {
                            Err(err) => Step::Reject(err),
                            Ok(_) => {
                                proof {
                                    assert(false);
                                }
                                Step::Reject(Error::ISO97962RSAVerifyError)
                            },
                        }
                    } else if self.next_chunk == 3 {
                        self.phase = Phase::Finished;
                        Step::Accept
                    } else {
                        self.next_chunk = self.next_chunk + 1;
                        match &self.witness {
                            Some(w) => make_chunk_request(w, &self.message, self.next_chunk),
                            None => {
                                proof {
                                    assert(false);
                                }
                                Step::Reject(Error::Encoding)
                            },
                        }
                    }
                },
                _ => {
                    proof {
                        assert(false);
                    }
                    Step::Reject(Error::Encoding)
                },
            },
            Phase::Finished => {
                proof {
                    assert(false);
                }
                Step::Reject(Error::Encoding)
            },
        }
    }
}

/// Law: chunk verification is reached only with a key whose fingerprint
/// equals the authorization argument: identity is settled before any
/// cryptographic work is requested.
pub proof fn lemma_verdict_means_key_matched(m: Machine)
    requires
        m.inv(),
        m.phase is AwaitVerdict,
    ensures
        m.witness matches Some(w) && fingerprint(w.pub_key_e, w.pub_key_n@) == m.args@,
{
}

/// Law: a step that returns a chunk-verification request leaves the machine
/// in the verdict phase, whose invariant carries the matched key and the
/// correctly built commitment digest.
pub proof fn lemma_chunk_request_only_in_verdict(pre: Machine, event: Event, m: Machine, s: Step)
    requires
        stepped(pre, event, m, s),
        s is VerifyChunk,
    ensures
        m.phase is AwaitVerdict,
{
}

/// Law: a witness of the right length whose key fingerprint differs from the
/// authorization argument is rejected as the wrong public key, before any
/// digest is built or chunk verification requested.
pub proof fn lemma_wrong_key_rejected(pre: Machine, event: Event, m: Machine, s: Step)
    requires
        stepped(pre, event, m, s),
        pre.phase is AwaitWitness,
        event matches Event::Bytes(w) && w@.len() == SIGNATURE_TOTAL_LEN && fingerprint(
            spec_u32_from_le_bytes(w@.subrange(PUB_KEY_E_OFFSET as int, PUB_KEY_N_OFFSET as int)),
            w@.subrange(PUB_KEY_N_OFFSET as int, SIGNATURE_TOTAL_LEN as int),
        ) != pre.args@,
    ensures
        rejected(m, s, Error::WrongPubKey),
{
}

/// Law: a nonzero verification status for any chunk rejects at once with
/// that status's failure kind; the step never accepts and never asks for a
/// further chunk.
pub proof fn lemma_nonzero_status_rejects(pre: Machine, code: i32, m: Machine, s: Step)
    requires
        stepped(pre, Event::Status(code), m, s),
        pre.phase is AwaitVerdict,
        code != 0,
    ensures
        rejected(m, s, validation_error(code)),
{
}

/// Law: the machine accepts only from the verdict phase, on a zero status
/// for the last of the four chunks; by the phase's invariant the accepted
/// run had a matching key fingerprint and the exact commitment digest.
pub proof fn lemma_accept_needs_four_verdicts(pre: Machine, event: Event, m: Machine, s: Step)
    requires
        pre.inv(),
        stepped(pre, event, m, s),
        s is Accept,
    ensures
        pre.phase is AwaitVerdict,
        pre.next_chunk == 3,
        event matches Event::Status(code) && code == 0,
        pre.key_matches(),
        pre.message_ok(),
{
}

} // verus!
