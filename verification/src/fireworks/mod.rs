//! Protocols defined by Echo Audio Digital Corporation for Fireworks board module.
//!
//! Each operation is a transaction: a request of category, command and arguments, and a response
//! of parameters. The module includes the types shared by the operations, the specification of
//! hardware, and the traits of operations.

pub mod audiofire;
pub mod flash;
pub mod hw_ctl;
pub mod monitor;
pub mod onyx_f;
pub mod phys_input;
pub mod phys_output;
pub mod playback;
pub mod port_conf;
pub mod rip;
pub mod robot_guitar;
pub mod transaction;
pub mod transport;

use vstd::prelude::*;

verus! {

/// Signal source of sampling clock.
#[derive(Debug, Copy, Clone, PartialEq, Eq, Structural)]
pub enum ClkSrc {
    Internal,
    WordClock,
    Spdif,
    Adat,
    Adat2,
    Continuous,
    Reserved(u32),
}

impl Default for ClkSrc {
    fn default() -> (r: Self)
        ensures
            r == ClkSrc::Reserved(u32::MAX),
    {
        ClkSrc::Reserved(u32::MAX)
    }
}

/// The code of signal source of sampling clock.
pub open spec fn clock_source_code(src: ClkSrc) -> u32 {
    match src {
        ClkSrc::Internal => 0,
        ClkSrc::WordClock => 2,
        ClkSrc::Spdif => 3,
        ClkSrc::Adat => 4,
        ClkSrc::Adat2 => 5,
        ClkSrc::Continuous => 6,
        ClkSrc::Reserved(val) => val,
    }
}

/// The signal source of sampling clock which the code stands for.
pub open spec fn clock_source_of(val: u32) -> ClkSrc {
    if val == 0 {
        ClkSrc::Internal
    } else if val == 2 {
        ClkSrc::WordClock
    } else if val == 3 {
        ClkSrc::Spdif
    } else if val == 4 {
        ClkSrc::Adat
    } else if val == 5 {
        ClkSrc::Adat2
    } else if val == 6 {
        ClkSrc::Continuous
    } else {
        ClkSrc::Reserved(val)
    }
}

/// The codes of the sources of sampling clock: internal 0, word clock 2, S/PDIF 3, ADAT 4,
/// second ADAT 5 and continuous 6; each of these codes reads back as its source, and any other
/// code as a reserved source which keeps it.
pub proof fn lemma_clock_source_codes()
    ensures
        clock_source_code(ClkSrc::Internal) == 0,
        clock_source_code(ClkSrc::WordClock) == 2,
        clock_source_code(ClkSrc::Spdif) == 3,
        clock_source_code(ClkSrc::Adat) == 4,
        clock_source_code(ClkSrc::Adat2) == 5,
        clock_source_code(ClkSrc::Continuous) == 6,
        clock_source_of(0) == ClkSrc::Internal,
        clock_source_of(2) == ClkSrc::WordClock,
        clock_source_of(3) == ClkSrc::Spdif,
        clock_source_of(4) == ClkSrc::Adat,
        clock_source_of(5) == ClkSrc::Adat2,
        clock_source_of(6) == ClkSrc::Continuous,
        forall|val: u32| (val == 1 || val > 6) ==> #[trigger] clock_source_of(val) == ClkSrc::Reserved(val),
{
}

/// Serialize the signal source of sampling clock.
pub fn serialize_clock_source(src: &ClkSrc) -> (r: u32)
    ensures
        r == clock_source_code(*src),
{
    match src {
        ClkSrc::Internal => 0,
        ClkSrc::WordClock => 2,
        ClkSrc::Spdif => 3,
        ClkSrc::Adat => 4,
        ClkSrc::Adat2 => 5,
        ClkSrc::Continuous => 6,
        ClkSrc::Reserved(val) => *val,
    }
}

/// Deserialize the signal source of sampling clock.
pub fn deserialize_clock_source(src: &mut ClkSrc, val: u32)
    ensures
        *final(src) == clock_source_of(val),
{
    *src = if val == 0 {
        ClkSrc::Internal
    } else if val == 2 {
        ClkSrc::WordClock
    } else if val == 3 {
        ClkSrc::Spdif
    } else if val == 4 {
        ClkSrc::Adat
    } else if val == 5 {
        ClkSrc::Adat2
    } else if val == 6 {
        ClkSrc::Continuous
    } else {
        ClkSrc::Reserved(val)
    };
}

/// A signal source of sampling clock is read back from its code, unless it is a reserved one
/// whose code is that of a named source.
pub proof fn lemma_clock_source_roundtrip(src: ClkSrc)
    requires
        src matches ClkSrc::Reserved(val) ==> !(val == 0 || (2 <= val <= 6)),
    ensures
        clock_source_of(clock_source_code(src)) == src,
{
}

/// Nominal level of audio signal.
#[derive(Debug, Copy, Clone, PartialEq, Eq, Structural)]
pub enum NominalSignalLevel {
    /// +4 dBu.
    Professional,
    Medium,
    /// -10 dBV.
    Consumer,
}

impl Default for NominalSignalLevel {
    fn default() -> (r: Self)
        ensures
            r == NominalSignalLevel::Professional,
    {
        NominalSignalLevel::Professional
    }
}

/// The code of nominal level.
pub open spec fn nominal_signal_level_code(level: NominalSignalLevel) -> u32 {
    match level {
        NominalSignalLevel::Consumer => 2,
        NominalSignalLevel::Medium => 1,
        NominalSignalLevel::Professional => 0,
    }
}

/// Each value of `NominalSignalLevel` has its own value in `nominal_signal_level_code`, as the device knows it.
pub proof fn lemma_nominal_signal_level_code_table()
    ensures
        nominal_signal_level_code(NominalSignalLevel::Consumer) == 2,
        nominal_signal_level_code(NominalSignalLevel::Medium) == 1,
        nominal_signal_level_code(NominalSignalLevel::Professional) == 0,
{
}

/// The nominal level which the code stands for; unknown codes stand for the professional level.
pub open spec fn nominal_signal_level_of(val: u32) -> NominalSignalLevel {
    if val == 2 {
        NominalSignalLevel::Consumer
    } else if val == 1 {
        NominalSignalLevel::Medium
    } else {
        NominalSignalLevel::Professional
    }
}

/// Each value which the device uses is read by `nominal_signal_level_of` as its own `NominalSignalLevel`.
pub proof fn lemma_nominal_signal_level_of_table()
    ensures
        nominal_signal_level_of(2) == NominalSignalLevel::Consumer,
        nominal_signal_level_of(1) == NominalSignalLevel::Medium,
{
}

/// Serialize the nominal level.
pub fn serialize_nominal_signal_level(level: &NominalSignalLevel) -> (r: u32)
    ensures
        r == nominal_signal_level_code(*level),
{
    match level {
        NominalSignalLevel::Consumer => 2,
        NominalSignalLevel::Medium => 1,
        NominalSignalLevel::Professional => 0,
    }
}

/// Deserialize the nominal level.
pub fn deserialize_nominal_signal_level(level: &mut NominalSignalLevel, val: u32)
    ensures
        *final(level) == nominal_signal_level_of(val),
{
    *level = if val == 2 {
        NominalSignalLevel::Consumer
    } else if val == 1 {
        NominalSignalLevel::Medium
    } else {
        NominalSignalLevel::Professional
    };
}

impl From<NominalSignalLevel> for u32 {
    fn from(level: NominalSignalLevel) -> (r: Self) {
        serialize_nominal_signal_level(&level)
    }
}

impl vstd::std_specs::convert::FromSpecImpl<NominalSignalLevel> for u32 {
    open spec fn obeys_from_spec() -> bool {
        true
    }

    open spec fn from_spec(v: NominalSignalLevel) -> Self {
        nominal_signal_level_code(v)
    }
}

impl From<u32> for NominalSignalLevel {
    fn from(val: u32) -> (r: Self) {
        let mut level = NominalSignalLevel::Professional;
        deserialize_nominal_signal_level(&mut level, val);
        level
    }
}

impl vstd::std_specs::convert::FromSpecImpl<u32> for NominalSignalLevel {
    open spec fn obeys_from_spec() -> bool {
        true
    }

    open spec fn from_spec(v: u32) -> Self {
        nominal_signal_level_of(v)
    }
}

/// A nominal level is read back from its code.
pub proof fn lemma_nominal_signal_level_roundtrip(level: NominalSignalLevel)
    ensures
        nominal_signal_level_of(nominal_signal_level_code(level)) == level,
{
}

/// The status of failed transaction.
#[derive(Debug, Copy, Clone, PartialEq, Eq, Structural)]
pub enum EfwProtocolError {
    Bad,
    BadCommand,
    CommErr,
    BadQuadCount,
    Unsupported,
    Timeout,
    DspTimeout,
    BadRate,
    BadClock,
    BadChannel,
    BadPan,
    FlashBusy,
    BadMirror,
    BadLed,
    BadParameter,
    Incomplete,
    Invalid,
}

/// The kind of error about the content of parameters.
#[derive(Debug, Copy, Clone, PartialEq, Eq, Structural)]
pub enum FileError {
    /// No such entry.
    Nxio,
    /// Invalid value.
    Inval,
}

/// An error of operation.
#[derive(Debug, Clone, PartialEq, Eq)]
pub enum EfwError {
    /// The transaction failed with the status.
    Protocol(EfwProtocolError, String),
    /// The parameters are out of what the operation can take.
    File(FileError, String),
}

impl EfwError {
    /// The status of failed transaction, if the error is one.
    pub fn protocol_kind(&self) -> (r: Option<EfwProtocolError>)
        ensures
            r == match *self {
                EfwError::Protocol(kind, _) => Some(kind),
                EfwError::File(..) => None::<EfwProtocolError>,
            },
    {
        match self {
            EfwError::Protocol(kind, _) => Some(*kind),
            EfwError::File(..) => None,
        }
    }
}

/// The transaction of the protocol, implemented by the transport to the unit.
pub trait EfwProtocolExtManual {
    /// Whether the unit answers the request of the category and command with the arguments by
    /// the parameters. Unless the transport says which answers the unit gives, any answer is
    /// possible.
    closed spec fn answered(&self, category: u32, command: u32, args: Seq<u32>, params: Seq<u32>) -> bool {
        true
    }

    /// Transmit the request of the category and command with the arguments, then wait for the
    /// response to fill the parameters.
    fn transaction(
        &self,
        category: u32,
        command: u32,
        args: &[u32],
        params: &mut Vec<u32>,
        timeout_ms: u32,
    ) -> (r: Result<(), EfwError>)
        ensures
            r.is_ok() ==> self.answered(category, command, args@, final(params)@),
    ;
}

/// Whether the unit answered the request of the command in the category with the arguments.
pub open spec fn answered_request<P: EfwProtocolExtManual>(
    proto: &P,
    category: u32,
    command: u32,
    args: Seq<u32>,
) -> bool {
    exists|p: Seq<u32>| #[trigger] proto.answered(category, command, args, p)
}

/// Whether the unit answered the request by parameters whose quadlet at the position, read as a
/// signed value, is the value.
pub open spec fn answered_i32<P: EfwProtocolExtManual>(
    proto: &P,
    category: u32,
    command: u32,
    args: Seq<u32>,
    pos: int,
    val: i32,
) -> bool {
    exists|p: Seq<u32>|
        #[trigger] proto.answered(category, command, args, p) && 0 <= pos < p.len() && val == p[pos] as i32
}

/// Whether the unit answered the request by parameters whose quadlet at the position, read as a
/// switch (on when not zero), is the value.
pub open spec fn answered_switch<P: EfwProtocolExtManual>(
    proto: &P,
    category: u32,
    command: u32,
    args: Seq<u32>,
    pos: int,
    val: bool,
) -> bool {
    exists|p: Seq<u32>|
        #[trigger] proto.answered(category, command, args, p) && 0 <= pos < p.len() && val == (p[pos] > 0)
}

/// Whether the unit answered the request by parameters whose quadlet at the position, cut to its
/// lowest byte, is the value.
pub open spec fn answered_u8<P: EfwProtocolExtManual>(
    proto: &P,
    category: u32,
    command: u32,
    args: Seq<u32>,
    pos: int,
    val: u8,
) -> bool {
    exists|p: Seq<u32>|
        #[trigger] proto.answered(category, command, args, p) && 0 <= pos < p.len() && val == p[pos] as u8
}

/// Whether the unit answered the request by parameters whose quadlet at the position is the code
/// of the nominal level.
pub open spec fn answered_nominal<P: EfwProtocolExtManual>(
    proto: &P,
    category: u32,
    command: u32,
    args: Seq<u32>,
    pos: int,
    val: NominalSignalLevel,
) -> bool {
    exists|p: Seq<u32>|
        #[trigger] proto.answered(category, command, args, p) && 0 <= pos < p.len() && val
            == nominal_signal_level_of(p[pos])
}

/// Whether each value is already its update, as far as both go: then no update is sent.
pub open spec fn no_update_needed<T>(vals: Seq<T>, updates: Seq<T>) -> bool {
    forall|i: int| 0 <= i < vals.len() && i < updates.len() ==> vals[i] == updates[i]
}

/// The request of transaction.
#[derive(Debug, Clone, PartialEq, Eq)]
pub struct EfwRequest {
    /// The category of command.
    pub category: u32,
    /// The command.
    pub command: u32,
    /// The arguments of command.
    pub args: Vec<u32>,
    /// The number of parameters of response.
    pub params_len: usize,
}

/// Whether the request is the one of the command in the category for the channel: its arguments
/// are the channel and then the others.
pub open spec fn channel_request_is(
    req: EfwRequest,
    category: u32,
    command: u32,
    ch: int,
    others: Seq<u32>,
    params_len: usize,
) -> bool {
    &&& req.category == category
    &&& req.command == command
    &&& req.args@ == seq![ch as u32] + others
    &&& req.params_len == params_len
}

/// The request of the command in the category for the channel, with the other arguments.
pub fn channel_request(
    category: u32,
    command: u32,
    ch: usize,
    others: &[u32],
    params_len: usize,
) -> (r: EfwRequest)
    ensures
        channel_request_is(r, category, command, ch as int, others@, params_len),
{
    let mut args: Vec<u32> = Vec::new();
    args.push(ch as u32);
    let mut i: usize = 0;
    while i < others.len()
        invariant
            i <= others@.len(),
            args@ == seq![ch as u32] + others@.take(i as int),
        decreases others@.len() - i,
    {
        args.push(others[i]);
        i = i + 1;
        proof {
            assert(args@ =~= seq![ch as u32] + others@.take(i as int));
        }
    }
    proof {
        assert(others@.take(others@.len() as int) =~= others@);
    }
    EfwRequest { category, command, args, params_len }
}

/// The requests to read each of the channels in order, one per channel.
pub fn channel_read_requests(
    category: u32,
    command: u32,
    others: &[u32],
    count: usize,
    params_len: usize,
) -> (r: Vec<EfwRequest>)
    ensures
        r@.len() == count,
        forall|ch: int|
            0 <= ch < count ==> channel_request_is(
                #[trigger] r@[ch],
                category,
                command,
                ch,
                others@,
                params_len,
            ),
{
    let mut reqs: Vec<EfwRequest> = Vec::new();
    let mut ch: usize = 0;
    while ch < count
        invariant
            ch <= count,
            reqs@.len() == ch,
            forall|k: int|
                0 <= k < ch ==> channel_request_is(
                    #[trigger] reqs@[k],
                    category,
                    command,
                    k,
                    others@,
                    params_len,
                ),
        decreases count - ch,
    {
        reqs.push(channel_request(category, command, ch, others, params_len));
        ch = ch + 1;
    }
    reqs
}

/// The list of channels with their requests to write: exactly the channels before the end of
/// either codes whose code differs from the new one, in increasing order, each with the request
/// of the command for the channel whose last argument is the new code.
pub open spec fn write_requests_are(
    reqs: Seq<(usize, EfwRequest)>,
    category: u32,
    command: u32,
    others: Seq<u32>,
    olds: Seq<u32>,
    news: Seq<u32>,
    params_len: usize,
) -> bool {
    &&& forall|k: int, l: int| 0 <= k < l < reqs.len() ==> #[trigger] reqs[k].0 < #[trigger] reqs[l].0
    &&& forall|k: int|
        0 <= k < reqs.len() ==> {
            let ch = (#[trigger] reqs[k]).0 as int;
            &&& ch < olds.len()
            &&& ch < news.len()
            &&& olds[ch] != news[ch]
            &&& channel_request_is(reqs[k].1, category, command, ch, others.push(news[ch]), params_len)
        }
    &&& forall|ch: int|
        0 <= ch < olds.len() && ch < news.len() && #[trigger] olds[ch] != news[ch] ==> exists|k: int|
            0 <= k < reqs.len() && #[trigger] reqs[k].0 == ch
}

/// The requests to write the channels whose codes differ from the new ones, in order.
pub fn channel_write_requests(
    category: u32,
    command: u32,
    others: &[u32],
    olds: &[u32],
    news: &[u32],
    params_len: usize,
) -> (r: Vec<(usize, EfwRequest)>)
    ensures
        write_requests_are(r@, category, command, others@, olds@, news@, params_len),
{
    let count = if olds.len() < news.len() {
        olds.len()
    } else {
        news.len()
    };
    let mut reqs: Vec<(usize, EfwRequest)> = Vec::new();
    let mut ch: usize = 0;
    while ch < count
        invariant
            ch <= count,
            count <= olds@.len(),
            count <= news@.len(),
            count == olds@.len() || count == news@.len(),
            forall|k: int, l: int| 0 <= k < l < reqs@.len() ==> #[trigger] reqs@[k].0 < #[trigger] reqs@[l].0,
            forall|k: int| 0 <= k < reqs@.len() ==> (#[trigger] reqs@[k]).0 < ch,
            forall|k: int|
                0 <= k < reqs@.len() ==> {
                    let c = (#[trigger] reqs@[k]).0 as int;
                    &&& c < olds@.len()
                    &&& c < news@.len()
                    &&& olds@[c] != news@[c]
                    &&& channel_request_is(reqs@[k].1, category, command, c, others@.push(news@[c]), params_len)
                },
            forall|c: int|
                0 <= c < ch && #[trigger] olds@[c] != news@[c] ==> exists|k: int|
                    0 <= k < reqs@.len() && #[trigger] reqs@[k].0 == c,
        decreases count - ch,
    {
        if olds[ch] != news[ch] {
            let mut tail: Vec<u32> = Vec::new();
            let mut i: usize = 0;
            while i < others.len()
                invariant
                    i <= others@.len(),
                    tail@ == others@.take(i as int),
                decreases others@.len() - i,
            {
                tail.push(others[i]);
                i = i + 1;
                proof {
                    assert(tail@ =~= others@.take(i as int));
                }
            }
            tail.push(news[ch]);
            proof {
                assert(others@.take(others@.len() as int) =~= others@);
                assert(tail@ =~= others@.push(news@[ch as int]));
            }
            let req = channel_request(category, command, ch, tail.as_slice(), params_len);
            let ghost prev = reqs@;
            reqs.push((ch, req));
            proof {
                assert(reqs@[prev.len() as int].0 == ch);
                assert forall|c: int|
                    0 <= c < ch + 1 && #[trigger] olds@[c] != news@[c] implies exists|k: int|
                        0 <= k < reqs@.len() && #[trigger] reqs@[k].0 == c by {
                    if c == ch {
                        assert(reqs@[prev.len() as int].0 == c);
                    } else {
                        let k = choose|k: int| 0 <= k < prev.len() && #[trigger] prev[k].0 == c;
                        assert(reqs@[k] == prev[k]);
                    }
                }
            }
        }
        ch = ch + 1;
    }
    reqs
}

/// Store in the channel the value parsed from the reply to its request; a failure to parse is
/// passed and the values are left as they are.
pub fn store_reply<T: Copy>(vals: &mut Vec<T>, ch: usize, parsed: Result<T, EfwError>) -> (r: Result<
    (),
    EfwError,
>)
    requires
        ch < old(vals)@.len(),
    ensures
        match parsed {
            Ok(v) => r.is_ok() && final(vals)@ == old(vals)@.update(ch as int, v),
            Err(e) => r == Err::<(), EfwError>(e) && final(vals)@ == old(vals)@,
        },
{
    match parsed {
        Ok(v) => {
            vals.set(ch, v);
            Ok(())
        },
        Err(e) => Err(e),
    }
}

/// The codes of signed values, as they go in requests.
pub fn i32_codes(vals: &[i32]) -> (r: Vec<u32>)
    ensures
        r@.len() == vals@.len(),
        forall|i: int| 0 <= i < vals@.len() ==> #[trigger] r@[i] == vals@[i] as u32,
{
    let mut r: Vec<u32> = Vec::new();
    let mut i: usize = 0;
    while i < vals.len()
        invariant
            i <= vals@.len(),
            r@.len() == i,
            forall|k: int| 0 <= k < i ==> #[trigger] r@[k] == vals@[k] as u32,
        decreases vals@.len() - i,
    {
        r.push(vals[i] as u32);
        i = i + 1;
    }
    r
}

/// The codes of switches, as they go in requests: 1 for on, 0 for off.
pub fn bool_codes(vals: &[bool]) -> (r: Vec<u32>)
    ensures
        r@.len() == vals@.len(),
        forall|i: int| 0 <= i < vals@.len() ==> #[trigger] r@[i] == (if vals@[i] { 1u32 } else { 0u32 }),
{
    let mut r: Vec<u32> = Vec::new();
    let mut i: usize = 0;
    while i < vals.len()
        invariant
            i <= vals@.len(),
            r@.len() == i,
            forall|k: int| 0 <= k < i ==> #[trigger] r@[k] == (if vals@[k] { 1u32 } else { 0u32 }),
        decreases vals@.len() - i,
    {
        r.push(if vals[i] { 1u32 } else { 0u32 });
        i = i + 1;
    }
    r
}

/// The codes of bytes, as they go in requests.
pub fn u8_codes(vals: &[u8]) -> (r: Vec<u32>)
    ensures
        r@.len() == vals@.len(),
        forall|i: int| 0 <= i < vals@.len() ==> #[trigger] r@[i] == vals@[i] as u32,
{
    let mut r: Vec<u32> = Vec::new();
    let mut i: usize = 0;
    while i < vals.len()
        invariant
            i <= vals@.len(),
            r@.len() == i,
            forall|k: int| 0 <= k < i ==> #[trigger] r@[k] == vals@[k] as u32,
        decreases vals@.len() - i,
    {
        r.push(vals[i] as u32);
        i = i + 1;
    }
    r
}

/// The codes of nominal levels, as they go in requests.
pub fn nominal_codes(vals: &[NominalSignalLevel]) -> (r: Vec<u32>)
    ensures
        r@.len() == vals@.len(),
        forall|i: int| 0 <= i < vals@.len() ==> #[trigger] r@[i] == nominal_signal_level_code(vals@[i]),
{
    let mut r: Vec<u32> = Vec::new();
    let mut i: usize = 0;
    while i < vals.len()
        invariant
            i <= vals@.len(),
            r@.len() == i,
            forall|k: int| 0 <= k < i ==> #[trigger] r@[k] == nominal_signal_level_code(vals@[k]),
        decreases vals@.len() - i,
    {
        r.push(serialize_nominal_signal_level(&vals[i]));
        i = i + 1;
    }
    r
}

/// Distinct signed values have distinct codes.
pub proof fn lemma_i32_code_injective(a: i32, b: i32)
    ensures
        a as u32 == b as u32 ==> a == b,
{
    assert(a as u32 == b as u32 ==> a == b) by (bit_vector);
}

/// Perform the transaction of the request with the buffer of parameters of the expected length,
/// and give back the parameters of response.
pub fn transact<P: EfwProtocolExtManual>(proto: &P, req: &EfwRequest, timeout_ms: u32) -> (r: Result<
    Vec<u32>,
    EfwError,
>)
    ensures
        r matches Ok(p) ==> proto.answered(req.category, req.command, req.args@, p@),
{
    let mut params = vec![0u32; req.params_len];
    proto.transaction(req.category, req.command, req.args.as_slice(), &mut params, timeout_ms)?;
    Ok(params)
}

/// The quadlet at `pos` of the parameters of response; an error for a response shorter than
/// expected.
pub fn param_at(params: &[u32], pos: usize) -> (r: Result<u32, EfwError>)
    ensures
        pos < params@.len() ==> r == Ok::<u32, EfwError>(params@[pos as int]),
        pos >= params@.len() ==> r matches Err(EfwError::Protocol(EfwProtocolError::Incomplete, _)),
{
    if pos < params.len() {
        Ok(params[pos])
    } else {
        Err(EfwError::Protocol(EfwProtocolError::Incomplete, "Parameter is shorter than expected".to_owned()))
    }
}

/// Capability of hardware.
#[derive(Debug, Copy, Clone, PartialEq, Eq, Structural)]
pub enum HwCap {
    ChangeableRespAddr,
    ControlRoom,
    OptionalSpdifCoax,
    OptionalAesebuXlr,
    Dsp,
    Fpga,
    PhantomPowering,
    OutputMapping,
    InputGain,
    OptionalSpdifOpt,
    OptionalAdatOpt,
    NominalInput,
    NominalOutput,
    SoftClip,
    RobotGuitar,
    GuitarCharging,
}

/// Type of group of physical inputs and outputs.
#[derive(Debug, Copy, Clone, PartialEq, Eq, Structural)]
pub enum PhysGroupType {
    Analog,
    Spdif,
    Adat,
    SpdifOrAdat,
    AnalogMirror,
    Headphones,
    I2s,
    Guitar,
    PiezoGuitar,
    GuitarString,
}

/// The total of channels in the groups of the type, or of any type; saturated at the maximum of
/// `usize`.
pub open spec fn group_total(groups: Seq<(PhysGroupType, usize)>, ty: Option<PhysGroupType>) -> nat
    decreases groups.len(),
{
    if groups.len() == 0 {
        0
    } else {
        group_total(groups.drop_last(), ty) + if ty is None || ty == Some(groups.last().0) {
            groups.last().1 as nat
        } else {
            0nat
        }
    }
}

/// The number of channels in the groups of the type, or of any type, up to the maximum of
/// `usize`.
pub fn count_group_channels(groups: &[(PhysGroupType, usize)], ty: Option<PhysGroupType>) -> (r: usize)
    ensures
        r == if group_total(groups@, ty) <= usize::MAX {
            group_total(groups@, ty)
        } else {
            usize::MAX as nat
        },
{
    let mut total: usize = 0;
    let mut i: usize = 0;
    while i < groups.len()
        invariant
            i <= groups@.len(),
            total == if group_total(groups@.take(i as int), ty) <= usize::MAX {
                group_total(groups@.take(i as int), ty)
            } else {
                usize::MAX as nat
            },
        decreases groups@.len() - i,
    {
        let (group_type, count) = groups[i];
        proof {
            assert(groups@.take(i + 1).drop_last() =~= groups@.take(i as int));
        }
        let counted = match ty {
            Some(t) => t == group_type,
            None => true,
        };
        if counted {
            total = total.saturating_add(count);
        }
        i = i + 1;
    }
    proof {
        assert(groups@.take(groups@.len() as int) =~= groups@);
    }
    total
}

/// The specification of hardware.
pub trait EfwHardwareSpecification {
    /// The list of supported sampling rates.
    fn supported_sampling_rates() -> &'static [u32];
    /// The list of supported sources of sampling clock.
    fn supported_sampling_clocks() -> &'static [ClkSrc];
    /// The list of capabilities; implementations give the one of their hardware.
    open spec fn spec_capabilities() -> Seq<HwCap> {
        Seq::empty()
    }
    /// The list of capabilities.
    fn capabilities() -> (r: &'static [HwCap])
        ensures
            r@ == Self::spec_capabilities(),
    ;
    /// The number of audio channels in received isochronous stream at each rate mode.
    const RX_CHANNEL_COUNTS: [usize; 3];
    /// The number of audio channels in transmitted isochronous stream at each rate mode.
    const TX_CHANNEL_COUNTS: [usize; 3];
    /// The number of sources for monitor.
    const MONITOR_SOURCE_COUNT: usize;
    /// The number of destinations for monitor.
    const MONITOR_DESTINATION_COUNT: usize;
    /// The number of MIDI input ports.
    const MIDI_INPUT_COUNT: usize;
    /// The number of MIDI output ports.
    const MIDI_OUTPUT_COUNT: usize;
    /// The groups of physical inputs; implementations give the one of their hardware.
    open spec fn spec_phys_input_groups() -> Seq<(PhysGroupType, usize)> {
        Seq::empty()
    }
    /// The groups of physical inputs.
    fn phys_input_groups() -> (r: &'static [(PhysGroupType, usize)])
        ensures
            r@ == Self::spec_phys_input_groups(),
    ;
    /// The groups of physical outputs; implementations give the one of their hardware.
    open spec fn spec_phys_output_groups() -> Seq<(PhysGroupType, usize)> {
        Seq::empty()
    }
    /// The groups of physical outputs.
    fn phys_output_groups() -> (r: &'static [(PhysGroupType, usize)])
        ensures
            r@ == Self::spec_phys_output_groups(),
    ;

    /// The number of physical inputs.
    fn phys_input_count() -> (r: usize)
        ensures
            r == if group_total(Self::spec_phys_input_groups(), None) <= usize::MAX {
                group_total(Self::spec_phys_input_groups(), None)
            } else {
                usize::MAX as nat
            },
    {
        count_group_channels(Self::phys_input_groups(), None)
    }

    /// The number of physical outputs.
    fn phys_output_count() -> (r: usize)
        ensures
            r == if group_total(Self::spec_phys_output_groups(), None) <= usize::MAX {
                group_total(Self::spec_phys_output_groups(), None)
            } else {
                usize::MAX as nat
            },
    {
        count_group_channels(Self::phys_output_groups(), None)
    }
}

/// The operation to cache the whole parameters from the unit.
pub trait EfwWhollyCachableParamsOperation<P: EfwProtocolExtManual, T> {
    /// Whether the parameters are what the operation can take.
    spec fn cache_acceptable(states: T) -> bool;

    /// Cache the whole parameters from the unit.
    fn cache_wholly(proto: &mut P, states: &mut T, timeout_ms: u32) -> Result<(), EfwError>
        requires
            Self::cache_acceptable(*old(states)),
    ;
}

/// The operation to update the whole parameters of the unit.
pub trait EfwWhollyUpdatableParamsOperation<P: EfwProtocolExtManual, T> {
    /// Whether the parameters are what the operation can take.
    spec fn update_acceptable(states: T) -> bool;

    /// Update the whole parameters of the unit.
    fn update_wholly(proto: &mut P, states: &T, timeout_ms: u32) -> Result<(), EfwError>
        requires
            Self::update_acceptable(*states),
    ;
}

/// The operation to update the part of parameters of the unit which differs from the cached one.
pub trait EfwPartiallyUpdatableParamsOperation<P: EfwProtocolExtManual, T> {
    /// Whether the parameters are what the operation can take.
    spec fn partial_update_acceptable(states: T, updates: T) -> bool;

    /// Update the part of parameters of the unit which differs from the cached one, and the cache
    /// as well.
    fn update_partially(proto: &mut P, states: &mut T, updates: T, timeout_ms: u32) -> Result<
        (),
        EfwError,
    >
        requires
            Self::partial_update_acceptable(*old(states), updates),
    ;
}

} // verus!
