use vstd::prelude::*;

use vstd::bytes::spec_u16_from_le_bytes;
use vstd::bytes::spec_u32_from_le_bytes;
use vstd::bytes::u16_from_le_bytes;
use vstd::bytes::u32_from_le_bytes;
use vstd::slice::slice_subrange;

use crate::decimal::spec_decimal;
use crate::decimal::signed_component_string;
use crate::errors::XpError;
use crate::net::Endpoint;
use crate::utils::spec_i32_from_bits;
use crate::utils::i32_from_bits;

verus! {

/// Whether `data` is long enough to carry every fixed beacon field and
/// begins with the four-byte ASCII tag `BECN`; exactly these buffers decode.
pub open spec fn spec_is_beacon_frame(data: Seq<u8>) -> bool {
    data.len() >= 21 && data[0] == 66 && data[1] == 69 && data[2] == 67 && data[3] == 78
}

/// Where the computer-name field of a beacon frame ends: the position of
/// the first NUL byte at or after `i`, or the end of the buffer if none.
pub open spec fn spec_name_end(data: Seq<u8>, i: int) -> int
    decreases data.len() - i,
{
    if i < 0 || i >= data.len() {
        data.len() as int
    } else if data[i] == 0 {
        i
    } else {
        spec_name_end(data, i + 1)
    }
}

/// The bytes of the computer-name field: everything from offset 21 up to
/// the first NUL byte, or to the end of the buffer if there is none.
pub open spec fn spec_name_bytes(data: Seq<u8>) -> Seq<u8>
    recommends
        data.len() >= 21,
{
    data.subrange(21, spec_name_end(data, 21))
}

/// A name for what `String::from_utf8_lossy` returns on a byte buffer.
pub uninterp spec fn lossy_utf8(bytes: Seq<u8>) -> Seq<char>;

/// Relies on `String::from_utf8_lossy`: the result is a function of the
/// bytes alone; valid UTF-8 decodes exactly, and invalid sequences are
/// replaced with U+FFFD, so a NUL character can only come from a NUL byte.
#[verifier::external_body]
fn utf8_lossy_to_string(bytes: &Vec<u8>) -> (r: String)
    ensures
        r@ == lossy_utf8(bytes@),
        vstd::utf8::valid_utf8(bytes@) ==> r@ == vstd::utf8::decode_utf8(bytes@),
        (forall|i: int| 0 <= i < bytes@.len() ==> bytes@[i] != 0) ==> (forall|j: int|
            0 <= j < r@.len() ==> r@[j] != '\0'),
        bytes@.len() == 0 ==> r@.len() == 0,
{
    String::from_utf8_lossy(bytes.as_slice()).to_string()
}

/// Division truncated toward zero, as the host language's integer
/// division behaves; the divisor is positive.
pub open spec fn spec_trunc_div(x: int, d: int) -> int
    recommends
        d > 0,
{
    if x >= 0 {
        x / d
    } else {
        -((-x) / d)
    }
}

/// Remainder of division truncated toward zero: it carries the sign of
/// the dividend.
pub open spec fn spec_trunc_rem(x: int, d: int) -> int
    recommends
        d > 0,
{
    if x >= 0 {
        x % d
    } else {
        -((-x) % d)
    }
}

/// The dotted version string: the decimal-encoded version number split as
/// `major.minor.patch` with `major * 10000 + minor * 100 + patch`.
pub open spec fn spec_version_string(v: int) -> Seq<char> {
    spec_decimal(spec_trunc_div(v, 10000)) + seq!['.'] + spec_decimal(
        spec_trunc_rem(spec_trunc_div(v, 100), 100),
    ) + seq!['.'] + spec_decimal(spec_trunc_rem(v, 100))
}

/// An immutable snapshot of one multicast beacon announcement.
#[derive(Clone, Debug)]
pub struct BeaconData {
    /// The network address the announcement arrived from.
    pub source: Endpoint,
    pub beacon_major_version: u8,
    pub beacon_minor_version: u8,
    pub application_host_id: i32,
    /// Decimal-encoded as `major * 10000 + minor * 100 + patch`.
    pub version_number: i32,
    pub role: u32,
    /// The UDP port on which the announcing simulator receives.
    pub port: u16,
    pub computer_name: String,
}

impl BeaconData {
    /// Whether this snapshot is what decoding `data` received from
    /// `source` yields, name field aside.
    pub open spec fn spec_matches_frame(self, data: Seq<u8>, source: Endpoint) -> bool {
        &&& self.source == source
        &&& self.beacon_major_version == data[5]
        &&& self.beacon_minor_version == data[6]
        &&& self.application_host_id == spec_i32_from_bits(
            spec_u32_from_le_bytes(data.subrange(7, 11)),
        )
        &&& self.version_number == spec_i32_from_bits(
            spec_u32_from_le_bytes(data.subrange(11, 15)),
        )
        &&& self.role == spec_u32_from_le_bytes(data.subrange(15, 19))
        &&& self.port == spec_u16_from_le_bytes(data.subrange(19, 21))
        &&& self.computer_name@ == lossy_utf8(spec_name_bytes(data))
        &&& vstd::utf8::valid_utf8(spec_name_bytes(data)) ==> self.computer_name@
            == vstd::utf8::decode_utf8(spec_name_bytes(data))
    }

    pub fn new(
        beacon_major_version: u8,
        beacon_minor_version: u8,
        application_host_id: i32,
        version_number: i32,
        role: u32,
        port: u16,
        computer_name: String,
        source: Endpoint,
    ) -> (d: BeaconData)
        ensures
            d == (BeaconData {
                beacon_major_version,
                beacon_minor_version,
                application_host_id,
                version_number,
                role,
                port,
                computer_name,
                source,
            }),
    {
        BeaconData {
            beacon_major_version,
            beacon_minor_version,
            application_host_id,
            version_number,
            role,
            port,
            computer_name,
            source,
        }
    }

    /// Decodes one beacon announcement.
    ///
    /// Succeeds exactly on buffers of at least 21 bytes that begin with
    /// `BECN`; on success the decoded computer name never contains a NUL
    /// character, since the name field ends at the first NUL byte.
    pub fn from_bytes(bytes: &[u8], src_addr: Endpoint) -> (r: Result<BeaconData, XpError>)
        ensures
            match r {
                Ok(d) => {
                    &&& spec_is_beacon_frame(bytes@)
                    &&& d.spec_matches_frame(bytes@, src_addr)
                    &&& forall|j: int|
                        0 <= j < d.computer_name@.len() ==> d.computer_name@[j] != '\0'
                },
                Err(e) => {
                    &&& e == XpError::ProtocolDecode
                    &&& !spec_is_beacon_frame(bytes@)
                },
            },
    {
        if bytes.len() < 21 {
            return Err(XpError::ProtocolDecode);
        }
        if !(bytes[0] == 66 && bytes[1] == 69 && bytes[2] == 67 && bytes[3] == 78) {
            return Err(XpError::ProtocolDecode);
        }

        // The computer-name field runs to the first NUL byte, if any.
        let mut end: usize = 21;
        while end < bytes.len() && bytes[end] != 0
            invariant
                21 <= end <= bytes@.len(),
                spec_name_end(bytes@, 21) == spec_name_end(bytes@, end as int),
                forall|j: int| 21 <= j < end ==> bytes@[j] != 0,
            decreases bytes@.len() - end,
        {
            end = end + 1;
        }
        proof {
            assert(spec_name_end(bytes@, 21) == end as int);
        }
        let mut name_bytes: Vec<u8> = Vec::new();
        let mut i: usize = 21;
        while i < end
            invariant
                21 <= i <= end <= bytes@.len(),
                spec_name_end(bytes@, 21) == end as int,
                name_bytes@ == bytes@.subrange(21, i as int),
                forall|j: int| 21 <= j < end ==> bytes@[j] != 0,
            decreases end - i,
        {
            name_bytes.push(bytes[i]);
            proof {
                assert(bytes@.subrange(21, i as int) + seq![bytes@[i as int]] =~= bytes@.subrange(
                    21,
                    i as int + 1,
                ));
            }
            i = i + 1;
        }
        proof {
            assert(name_bytes@ =~= spec_name_bytes(bytes@));
            assert(forall|j: int| 0 <= j < name_bytes@.len() ==> name_bytes@[j] != 0);
        }

        Ok(BeaconData {
            beacon_major_version: bytes[5],
            beacon_minor_version: bytes[6],
            application_host_id: i32_from_bits(u32_from_le_bytes(slice_subrange(bytes, 7, 11))),
            version_number: i32_from_bits(u32_from_le_bytes(slice_subrange(bytes, 11, 15))),
            role: u32_from_le_bytes(slice_subrange(bytes, 15, 19)),
            port: u16_from_le_bytes(slice_subrange(bytes, 19, 21)),
            computer_name: utf8_lossy_to_string(&name_bytes),
            source: src_addr,
        })
    }

    pub fn get_major_version(&self) -> (v: u8)
        ensures
            v == self.beacon_major_version,
    {
        self.beacon_major_version
    }

    pub fn get_minor_version(&self) -> (v: u8)
        ensures
            v == self.beacon_minor_version,
    {
        self.beacon_minor_version
    }

    pub fn get_application_host_id(&self) -> (v: i32)
        ensures
            v == self.application_host_id,
    {
        self.application_host_id
    }

    pub fn get_version_number(&self) -> (v: i32)
        ensures
            v == self.version_number,
    {
        self.version_number
    }

    /// The announced version as a dotted `major.minor.patch` string.
    pub fn get_version_number_string(&self) -> (s: String)
        ensures
            s@ == spec_version_string(self.version_number as int),
    {
        let v: i32 = self.version_number;
        let negative: bool = v < 0;
        let magnitude: u64 = if v >= 0 {
            v as u64
        } else {
            (-(v as i64)) as u64
        };
        let major = signed_component_string(negative, magnitude / 10000);
        let minor = signed_component_string(negative, (magnitude / 100) % 100);
        let patch = signed_component_string(negative, magnitude % 100);
        proof {
            reveal_strlit(".");
            assert((".")@ =~= seq!['.']);
            assert(spec_trunc_div(v as int, 10000) == if negative {
                -((magnitude as int) / 10000)
            } else {
                (magnitude as int) / 10000
            });
            assert(spec_trunc_rem(spec_trunc_div(v as int, 100), 100) == if negative {
                -(((magnitude as int) / 100) % 100)
            } else {
                ((magnitude as int) / 100) % 100
            });
            assert(spec_trunc_rem(v as int, 100) == if negative {
                -((magnitude as int) % 100)
            } else {
                (magnitude as int) % 100
            });
        }
        let s = major.concat(".").concat(minor.as_str()).concat(".").concat(patch.as_str());
        proof {
            assert(s@ =~= spec_version_string(self.version_number as int));
        }
        s
    }

    pub fn get_role(&self) -> (v: u32)
        ensures
            v == self.role,
    {
        self.role
    }

    pub fn get_port(&self) -> (v: u16)
        ensures
            v == self.port,
    {
        self.port
    }

    pub fn get_computer_name(&self) -> (n: &String)
        ensures
            n@ == self.computer_name@,
    {
        &self.computer_name
    }

    pub fn get_source(&self) -> (s: &Endpoint)
        ensures
            *s == self.source,
    {
        &self.source
    }
}

} // verus!
