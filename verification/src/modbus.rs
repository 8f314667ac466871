//! Modbus TCP framing for reading registers (function codes 0x03 and 0x04).
//!
//! A read goes in three steps, with the network in between: the session hands
//! out a `ReadRequest` whose `encode` gives the 12 bytes to send; the 7 bytes
//! of the reply's header go to `check_header`, which says how many payload
//! bytes follow; those go to `decode_payload`, which gives the registers.
use vstd::prelude::*;

verus! {

/// Function code that reads holding registers.
pub const READ_HOLDING_REGISTERS: u8 = 0x03;

/// Function code that reads input registers.
pub const READ_INPUT_REGISTERS: u8 = 0x04;

/// The largest number of registers that one read may ask for.
pub const MAX_READ_COUNT: u16 = 125;

/// Why a register read failed.
#[derive(Debug, Clone, Copy, PartialEq, Eq)]
pub enum ModbusError {
    /// The read asked for no register or for more than 125.
    InvalidCount,
    /// The reply's header names another transaction, protocol or unit.
    InvalidHeader,
    /// The reply's length field lies outside 2..=254.
    InvalidLength,
    /// The device answered with an exception code.
    Exception { code: u8, address: u16 },
    /// The reply is for another function, or too short to hold a byte count.
    UnexpectedFunction,
    /// The reply's byte count is not twice the register count, or the
    /// payload is shorter than it claims.
    WrongDataLength { expected: usize, received: usize },
}

/// The state a connection keeps between reads.
#[derive(Debug, Clone, Copy, PartialEq, Eq)]
pub struct ModbusSession {
    pub transaction_id: u16,
    pub unit_id: u8,
}

/// One read, as it was sent.
#[derive(Debug, Clone, Copy, PartialEq, Eq)]
pub struct ReadRequest {
    pub transaction_id: u16,
    pub unit_id: u8,
    pub function: u8,
    pub address: u16,
    pub count: u16,
}

/// High byte of a 16-bit value.
pub open spec fn hi(x: u16) -> u8 {
    (x / 256) as u8
}

/// Low byte of a 16-bit value.
pub open spec fn lo(x: u16) -> u8 {
    (x % 256) as u8
}

/// The 16-bit value whose bytes, high first, are `h` and `l`.
pub open spec fn be_u16(h: u8, l: u8) -> u16 {
    (h as int * 256 + l as int) as u16
}

/// The transaction id after `id`, wrapping at 2^16.
pub open spec fn next_transaction_id(id: u16) -> u16 {
    if id == 0xFFFF {
        0
    } else {
        (id + 1) as u16
    }
}

/// A register count that one read may ask for.
pub open spec fn valid_count(count: u16) -> bool {
    1 <= count <= MAX_READ_COUNT
}

/// The request that the session makes for a read, when the count is valid.
pub open spec fn spec_request(
    session: ModbusSession,
    function: u8,
    address: u16,
    count: u16,
) -> ReadRequest {
    ReadRequest {
        transaction_id: next_transaction_id(session.transaction_id),
        unit_id: session.unit_id,
        function,
        address,
        count,
    }
}

/// The bytes of a request: MBAP header (transaction id, protocol 0, length 6,
/// unit id), then function code, start address and register count, each
/// 16-bit field high byte first.
pub open spec fn request_frame(req: ReadRequest) -> Seq<u8> {
    seq![
        hi(req.transaction_id),
        lo(req.transaction_id),
        0u8,
        0u8,
        0u8,
        6u8,
        req.unit_id,
        req.function,
        hi(req.address),
        lo(req.address),
        hi(req.count),
        lo(req.count),
    ]
}

/// What the 7 header bytes of a reply say: the number of payload bytes that
/// follow, or why the reply is refused.
pub open spec fn spec_check_header(req: ReadRequest, header: Seq<u8>) -> Result<usize, ModbusError> {
    let tx = be_u16(header[0], header[1]);
    let protocol = be_u16(header[2], header[3]);
    let length = be_u16(header[4], header[5]);
    if tx != req.transaction_id || protocol != 0 || header[6] != req.unit_id {
        Err(ModbusError::InvalidHeader)
    } else if !(2 <= length <= 254) {
        Err(ModbusError::InvalidLength)
    } else {
        Ok((length - 1) as usize)
    }
}

/// The registers in a payload whose byte count has been checked.
pub open spec fn payload_registers(payload: Seq<u8>, count: u16) -> Seq<u16> {
    Seq::new(count as nat, |i: int| be_u16(payload[2 + 2 * i], payload[3 + 2 * i]))
}

/// What a reply's payload (function code onwards) gives for a request.
pub open spec fn spec_decode_payload(req: ReadRequest, payload: Seq<u8>) -> Result<
    Seq<u16>,
    ModbusError,
> {
    if payload[0] == req.function | 0x80u8 {
        Err(
            ModbusError::Exception {
                code: if payload.len() > 1 {
                    payload[1]
                } else {
                    0
                },
                address: req.address,
            },
        )
    } else if payload[0] != req.function || payload.len() < 2 {
        Err(ModbusError::UnexpectedFunction)
    } else if payload[1] != 2 * req.count || payload.len() < payload[1] + 2 {
        Err(
            ModbusError::WrongDataLength {
                expected: (2 * req.count) as usize,
                received: payload[1] as usize,
            },
        )
    } else {
        Ok(payload_registers(payload, req.count))
    }
}

impl ModbusSession {
    /// A session for the given unit, before its first read.
    pub fn new(unit_id: u8) -> (res: Self)
        ensures
            res.transaction_id == 0,
            res.unit_id == unit_id,
    {
        ModbusSession { transaction_id: 0, unit_id }
    }

    /// Starts a read of `count` registers from `address` with `function`.
    /// A valid count takes the next transaction id; an invalid one changes
    /// nothing.
    pub fn read_registers(&mut self, function: u8, address: u16, count: u16) -> (res: Result<
        ReadRequest,
        ModbusError,
    >)
        ensures
            !valid_count(count) ==> res == Err::<ReadRequest, ModbusError>(
                ModbusError::InvalidCount,
            ) && *final(self) == *old(self),
            valid_count(count) ==> res == Ok::<ReadRequest, ModbusError>(
                spec_request(*old(self), function, address, count),
            ) && final(self).transaction_id == next_transaction_id(old(self).transaction_id)
                && final(self).unit_id == old(self).unit_id,
            res matches Ok(r) ==> r.unit_id == old(self).unit_id && r.function == function
                && r.address == address && r.count == count && r.transaction_id == final(self).transaction_id && r.transaction_id as int == (old(self).transaction_id as int + 1)
                % 65536,
            res is Ok <==> 1 <= count <= 125,
            final(self).unit_id == old(self).unit_id,
    {
        if count == 0 || count > MAX_READ_COUNT {
            return Err(ModbusError::InvalidCount);
        }
        self.transaction_id = self.transaction_id.wrapping_add(1);
        Ok(
            ReadRequest {
                transaction_id: self.transaction_id,
                unit_id: self.unit_id,
                function,
                address,
                count,
            },
        )
    }

    /// Starts a read of input registers (function 0x04).
    pub fn read_input(&mut self, address: u16, count: u16) -> (res: Result<ReadRequest, ModbusError>)
        ensures
            !valid_count(count) ==> res == Err::<ReadRequest, ModbusError>(
                ModbusError::InvalidCount,
            ) && *final(self) == *old(self),
            valid_count(count) ==> res == Ok::<ReadRequest, ModbusError>(
                spec_request(*old(self), READ_INPUT_REGISTERS, address, count),
            ) && final(self).transaction_id == next_transaction_id(old(self).transaction_id)
                && final(self).unit_id == old(self).unit_id,
            res matches Ok(r) ==> r.unit_id == old(self).unit_id && r.function == 0x04
                && r.address == address && r.count == count && r.transaction_id == final(self).transaction_id && r.transaction_id as int == (old(self).transaction_id as int + 1)
                % 65536,
            res is Ok <==> 1 <= count <= 125,
            final(self).unit_id == old(self).unit_id,
    {
        self.read_registers(READ_INPUT_REGISTERS, address, count)
    }

    /// Starts a read of holding registers (function 0x03).
    pub fn read_holding(&mut self, address: u16, count: u16) -> (res: Result<
        ReadRequest,
        ModbusError,
    >)
        ensures
            !valid_count(count) ==> res == Err::<ReadRequest, ModbusError>(
                ModbusError::InvalidCount,
            ) && *final(self) == *old(self),
            valid_count(count) ==> res == Ok::<ReadRequest, ModbusError>(
                spec_request(*old(self), READ_HOLDING_REGISTERS, address, count),
            ) && final(self).transaction_id == next_transaction_id(old(self).transaction_id)
                && final(self).unit_id == old(self).unit_id,
            res matches Ok(r) ==> r.unit_id == old(self).unit_id && r.function == 0x03
                && r.address == address && r.count == count && r.transaction_id == final(self).transaction_id && r.transaction_id as int == (old(self).transaction_id as int + 1)
                % 65536,
            res is Ok <==> 1 <= count <= 125,
            final(self).unit_id == old(self).unit_id,
    {
        self.read_registers(READ_HOLDING_REGISTERS, address, count)
    }
}

impl ReadRequest {
    /// The 12 bytes to send for this request.
    pub fn encode(&self) -> (res: Vec<u8>)
        ensures
            res@ == request_frame(*self),
            res@.len() == 12,
            res@[0] as int * 256 + res@[1] as int == self.transaction_id,
            res@[2] == 0 && res@[3] == 0,
            res@[4] == 0 && res@[5] == 6,
            res@[6] == self.unit_id,
            res@[7] == self.function,
            res@[8] as int * 256 + res@[9] as int == self.address,
            res@[10] as int * 256 + res@[11] as int == self.count,
    {
        let mut out: Vec<u8> = Vec::new();
        out.push((self.transaction_id / 256) as u8);
        out.push((self.transaction_id % 256) as u8);
        out.push(0u8);
        out.push(0u8);
        out.push(0u8);
        out.push(6u8);
        out.push(self.unit_id);
        out.push(self.function);
        out.push((self.address / 256) as u8);
        out.push((self.address % 256) as u8);
        out.push((self.count / 256) as u8);
        out.push((self.count % 256) as u8);
        assert(out@ =~= request_frame(*self));
        proof {
            lemma_request_frame_fields(*self);
        }
        out
    }

    /// Checks the 7 header bytes of the reply and gives the number of
    /// payload bytes that follow them.
    pub fn check_header(&self, header: &[u8]) -> (res: Result<usize, ModbusError>)
        requires
            header@.len() == 7,
        ensures
            res == spec_check_header(*self, header@),
    {
        let tx: u16 = (header[0] as u16) * 256 + (header[1] as u16);
        let protocol: u16 = (header[2] as u16) * 256 + (header[3] as u16);
        let length: u16 = (header[4] as u16) * 256 + (header[5] as u16);
        if tx != self.transaction_id || protocol != 0 || header[6] != self.unit_id {
            return Err(ModbusError::InvalidHeader);
        }
        if !(2 <= length && length <= 254) {
            return Err(ModbusError::InvalidLength);
        }
        Ok((length - 1) as usize)
    }

    /// Decodes the reply's payload (from the function code on) into the
    /// registers read.
    pub fn decode_payload(&self, payload: &[u8]) -> (res: Result<Vec<u16>, ModbusError>)
        requires
            payload@.len() >= 1,
        ensures
            match res {
                Ok(v) => spec_decode_payload(*self, payload@) == Ok::<Seq<u16>, ModbusError>(v@),
                Err(e) => spec_decode_payload(*self, payload@) == Err::<Seq<u16>, ModbusError>(e),
            },
    {
        if payload[0] == (self.function | 0x80u8) {
            let code: u8 = if payload.len() > 1 {
                payload[1]
            } else {
                0
            };
            return Err(ModbusError::Exception { code, address: self.address });
        }
        if payload[0] != self.function || payload.len() < 2 {
            return Err(ModbusError::UnexpectedFunction);
        }
        let byte_count: usize = payload[1] as usize;
        let expected: usize = (self.count as usize) * 2;
        if byte_count != expected || payload.len() < byte_count + 2 {
            return Err(ModbusError::WrongDataLength { expected, received: byte_count });
        }
        let mut values: Vec<u16> = Vec::new();
        let mut i: usize = 0;
        while i < self.count as usize
            invariant
                i <= self.count,
                payload@.len() >= 2 + 2 * self.count,
                values@ =~= payload_registers(payload@, self.count).take(i as int),
            decreases self.count - i,
        {
            let h = payload[2 + 2 * i];
            let l = payload[3 + 2 * i];
            values.push((h as u16) * 256 + (l as u16));
            assert(values@ =~= payload_registers(payload@, self.count).take(i + 1));
            i = i + 1;
        }
        assert(values@ =~= payload_registers(payload@, self.count));
        Ok(values)
    }
}

/// A request frame is 12 bytes and each of its 16-bit fields reads back
/// from its two bytes, high byte first: the transaction id from bytes 0-1,
/// protocol 0 from bytes 2-3, length 6 from bytes 4-5, then the unit id, the
/// function code, the start address from bytes 8-9 and the register count
/// from bytes 10-11. Two requests that differ in any field have different
/// frames.
pub proof fn lemma_request_frame_fields(req: ReadRequest)
    ensures
        request_frame(req).len() == 12,
        request_frame(req)[0] as int * 256 + request_frame(req)[1] as int == req.transaction_id,
        request_frame(req)[2] == 0 && request_frame(req)[3] == 0,
        request_frame(req)[4] == 0 && request_frame(req)[5] == 6,
        request_frame(req)[6] == req.unit_id,
        request_frame(req)[7] == req.function,
        request_frame(req)[8] as int * 256 + request_frame(req)[9] as int == req.address,
        request_frame(req)[10] as int * 256 + request_frame(req)[11] as int == req.count,
        forall|other: ReadRequest| #[trigger] request_frame(other) == request_frame(req) ==> other == req,
{
    assert forall|other: ReadRequest| #[trigger] request_frame(other) == request_frame(req) implies other == req by {
        let a = request_frame(other);
        let b = request_frame(req);
        assert(a[0] == b[0] && a[1] == b[1] && a[6] == b[6] && a[7] == b[7]);
        assert(a[8] == b[8] && a[9] == b[9] && a[10] == b[10] && a[11] == b[11]);
    }
}

/// The header that a device sends before `payload_len` payload bytes in its
/// reply to `req`.
pub open spec fn reply_header(req: ReadRequest, payload_len: u16) -> Seq<u8> {
    seq![
        hi(req.transaction_id),
        lo(req.transaction_id),
        0u8,
        0u8,
        hi((payload_len + 1) as u16),
        lo((payload_len + 1) as u16),
        req.unit_id,
    ]
}

/// The payload of a device's reply to `req` that carries `values`.
pub open spec fn reply_payload(req: ReadRequest, values: Seq<u16>) -> Seq<u8> {
    seq![req.function, (2 * values.len()) as u8] + Seq::new(
        2 * values.len(),
        |i: int|
            if i % 2 == 0 {
                hi(values[i / 2])
            } else {
                lo(values[i / 2])
            },
    )
}

proof fn lemma_bytes_roundtrip(x: u16)
    ensures
        be_u16(hi(x), lo(x)) == x,
{
}

/// A read gives back what the device sent: a well-formed reply to a request
/// for `count` registers passes the header check, announces exactly its
/// payload, and decodes to the registers it carries, in order.
pub proof fn lemma_reply_roundtrip(req: ReadRequest, values: Seq<u16>)
    requires
        valid_count(req.count),
        req.function < 0x80,
        values.len() == req.count,
    ensures
        spec_check_header(req, reply_header(req, (2 + 2 * req.count) as u16)) == Ok::<
            usize,
            ModbusError,
        >((2 + 2 * req.count) as usize),
        reply_payload(req, values).len() == 2 + 2 * req.count,
        spec_decode_payload(req, reply_payload(req, values)) == Ok::<Seq<u16>, ModbusError>(
            values,
        ),
{
    let n: u16 = (2 + 2 * req.count) as u16;
    let h = reply_header(req, n);
    lemma_bytes_roundtrip(req.transaction_id);
    lemma_bytes_roundtrip((n + 1) as u16);
    assert(be_u16(h[0], h[1]) == req.transaction_id);
    assert(be_u16(h[4], h[5]) == n + 1);
    let p = reply_payload(req, values);
    let f = req.function;
    assert(f | 0x80u8 != f) by (bit_vector)
        requires
            f < 0x80u8,
    ;
    assert(p[0] == req.function);
    assert(p[1] == 2 * req.count);
    assert forall|i: int| 0 <= i < req.count implies #[trigger] payload_registers(p, req.count)[i]
        == values[i] by {
        assert(p[2 + 2 * i] == hi(values[i]));
        assert(p[3 + 2 * i] == lo(values[i]));
        lemma_bytes_roundtrip(values[i]);
    }
    assert(payload_registers(p, req.count) =~= values);
}

/// A reply whose function code has the exception bit set is reported as the
/// device's exception, with the code it carries, for the address read.
pub proof fn lemma_exception_reply(req: ReadRequest, code: u8)
    ensures
        spec_decode_payload(req, seq![req.function | 0x80u8, code]) == Err::<
            Seq<u16>,
            ModbusError,
        >(ModbusError::Exception { code, address: req.address }),
{
}

/// A header that passes the check belongs to the request's own transaction
/// and unit, and announces between 1 and 253 payload bytes.
pub proof fn lemma_accepted_header_matches_request(req: ReadRequest, header: Seq<u8>)
    requires
        header.len() == 7,
        spec_check_header(req, header) is Ok,
    ensures
        be_u16(header[0], header[1]) == req.transaction_id,
        be_u16(header[2], header[3]) == 0,
        header[6] == req.unit_id,
        spec_check_header(req, header) matches Ok(n) && 1 <= n <= 253,
{
}

/// A request that the session hands out is addressed to the session's own
/// unit, carries the function, address and count asked for, and takes the
/// transaction id one past the session's last, wrapping at 2^16.
pub proof fn lemma_request_belongs_to_session(
    session: ModbusSession,
    function: u8,
    address: u16,
    count: u16,
)
    ensures
        spec_request(session, function, address, count).unit_id == session.unit_id,
        spec_request(session, function, address, count).function == function,
        spec_request(session, function, address, count).address == address,
        spec_request(session, function, address, count).count == count,
        spec_request(session, function, address, count).transaction_id as int == (
        session.transaction_id as int + 1) % 65536,
        valid_count(count) <==> 1 <= count <= 125,
{
}

/// The session only ever asks to read: a request it hands out carries the
/// function code it was asked for, and `read_input` / `read_holding` ask for
/// 0x04 / 0x03. Each accepted read takes a fresh transaction id, so a request
/// never shares its id with the one just before it.
pub proof fn lemma_requests_take_fresh_ids(session: ModbusSession, address: u16, count: u16)
    requires
        valid_count(count),
    ensures
        spec_request(session, READ_INPUT_REGISTERS, address, count).function == 0x04,
        spec_request(session, READ_HOLDING_REGISTERS, address, count).function == 0x03,
        spec_request(session, READ_INPUT_REGISTERS, address, count).transaction_id
            != session.transaction_id,
        request_frame(spec_request(session, READ_INPUT_REGISTERS, address, count))[7] == 0x04,
        request_frame(spec_request(session, READ_HOLDING_REGISTERS, address, count))[7] == 0x03,
{
}

} // verus!
