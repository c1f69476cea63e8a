use vstd::prelude::*;

use vstd::bytes::lemma_auto_spec_u32_to_from_le_bytes;
use vstd::bytes::spec_u32_from_le_bytes;
use vstd::bytes::spec_u32_to_le_bytes;
use vstd::bytes::u32_from_le_bytes;
use vstd::bytes::u32_to_le_bytes;
use vstd::slice::slice_subrange;
use vstd::string::StrSliceExecFns;
use vstd::string::StringSliceAdditionalSpecFns;

use crate::consts::SUBSCRIBE_NAME_CAPACITY;
use crate::dataref_type::DataRefType;
use crate::dataref_type::DataRefValueType;
use crate::errors::XpError;
use crate::utils::spec_i32_from_bits;
use crate::utils::spec_i32_to_bits;
use crate::utils::i32_from_bits;
use crate::utils::i32_to_bits;

verus! {

/// One subscription: a dataref name (as its UTF-8 bytes), the session-local
/// index that stands for the name on the wire, the requested update
/// frequency, the declared type, and the raw bits of the last received
/// 32-bit float (`None` until the first update arrives).
#[derive(Clone, Debug)]
pub struct DataRef {
    pub name: Vec<u8>,
    pub index: i32,
    pub freq: i32,
    pub value_type: DataRefType,
    pub raw: Option<u32>,
}

/// The five fixed leading bytes of a dataref frame: the ASCII tag `RREF`
/// followed by one pad byte.
pub open spec fn spec_rref_header() -> Seq<u8> {
    seq![82u8, 82u8, 69u8, 70u8, 0u8]
}

/// Whether `data` begins with the four-byte ASCII tag `RREF`.
pub open spec fn spec_has_rref_prefix(data: Seq<u8>) -> bool {
    data.len() >= 4 && data[0] == 82 && data[1] == 82 && data[2] == 69 && data[3] == 70
}

/// The encoded subscribe/unsubscribe request: tag, pad byte, frequency and
/// index as little-endian 32-bit values, then the name padded with NUL
/// bytes to its fixed capacity of 400, for 413 bytes in all.
pub open spec fn spec_subscription_message(freq: i32, index: i32, name: Seq<u8>) -> Seq<u8>
    recommends
        name.len() <= SUBSCRIBE_NAME_CAPACITY,
{
    spec_rref_header() + spec_u32_to_le_bytes(spec_i32_to_bits(freq)) + spec_u32_to_le_bytes(
        spec_i32_to_bits(index),
    ) + name + Seq::<u8>::new((SUBSCRIBE_NAME_CAPACITY - name.len()) as nat, |i: int| 0u8)
}

impl DataRef {
    /// A fresh subscription with no value received yet.
    pub fn new(name: &str, index: i32, frequency: i32, value_type: DataRefType) -> (d: DataRef)
        ensures
            d.name@ == name.spec_bytes(),
            d.index == index,
            d.freq == frequency,
            d.value_type == value_type,
            d.raw is None,
    {
        DataRef { name: name.as_bytes_vec(), index, freq: frequency, value_type, raw: None }
    }

    /// The raw bits of the last received value, if any update arrived.
    pub fn get_raw(&self) -> (r: Option<u32>)
        ensures
            r == self.raw,
    {
        self.raw
    }

    /// This subscription after an update with the given raw bits.
    pub open spec fn spec_with_value(self, bits: u32) -> DataRef {
        DataRef {
            name: self.name,
            index: self.index,
            freq: self.freq,
            value_type: self.value_type,
            raw: Some(bits),
        }
    }

    /// The current value tagged with the declared type, or `Unknown` before
    /// the first update.
    pub open spec fn spec_get(self) -> DataRefValueType {
        match self.raw {
            None => DataRefValueType::Unknown,
            Some(bits) => match self.value_type {
                DataRefType::Float => DataRefValueType::Float(bits),
                DataRefType::Int => DataRefValueType::Int(bits),
                DataRefType::Char => DataRefValueType::Char(bits),
            },
        }
    }

    pub fn get(&self) -> (v: DataRefValueType)
        ensures
            v == self.spec_get(),
    {
        let bits: u32 = match self.raw {
            None => { return DataRefValueType::Unknown },
            Some(b) => b,
        };
        match self.value_type {
            DataRefType::Float => DataRefValueType::Float(bits),
            DataRefType::Int => DataRefValueType::Int(bits),
            DataRefType::Char => DataRefValueType::Char(bits),
        }
    }

    /// Records the raw bits of a newly received value.
    pub fn update(&mut self, bits: u32)
        ensures
            *final(self) == old(self).spec_with_value(bits),
    {
        self.raw = Some(bits);
    }

    /// Encodes the subscribe-request datagram for this subscription.
    ///
    /// The name field always occupies its full 400-byte capacity so that
    /// the positions of all fields are fixed; a longer name must have been
    /// rejected before this point.
    pub fn subscription_message(&self) -> (msg: Vec<u8>)
        requires
            self.name@.len() <= SUBSCRIBE_NAME_CAPACITY,
        ensures
            msg@ == spec_subscription_message(self.freq, self.index, self.name@),
            msg@.len() == 13 + SUBSCRIBE_NAME_CAPACITY,
    {
        proof {
            lemma_auto_spec_u32_to_from_le_bytes();
        }
        let ghost header_part: Seq<u8> = spec_rref_header() + spec_u32_to_le_bytes(
            spec_i32_to_bits(self.freq),
        ) + spec_u32_to_le_bytes(spec_i32_to_bits(self.index));

        let mut msg: Vec<u8> = Vec::new();
        msg.push(82);
        msg.push(82);
        msg.push(69);
        msg.push(70);
        msg.push(0);
        let mut freq_bytes: Vec<u8> = u32_to_le_bytes(i32_to_bits(self.freq));
        msg.append(&mut freq_bytes);
        let mut index_bytes: Vec<u8> = u32_to_le_bytes(i32_to_bits(self.index));
        msg.append(&mut index_bytes);
        proof {
            assert(msg@ =~= header_part);
        }

        let name_len: usize = self.name.len();
        let mut i: usize = 0;
        while i < name_len
            invariant
                0 <= i <= name_len,
                name_len == self.name@.len(),
                msg@ == header_part + self.name@.take(i as int),
            decreases name_len - i,
        {
            msg.push(self.name[i]);
            proof {
                assert(header_part + self.name@.take(i as int) + seq![self.name@[i as int]]
                    =~= header_part + self.name@.take(i as int + 1));
            }
            i = i + 1;
        }
        proof {
            assert(self.name@.take(name_len as int) =~= self.name@);
        }

        while msg.len() < 13 + SUBSCRIBE_NAME_CAPACITY
            invariant
                13 + self.name@.len() <= msg@.len() <= 13 + SUBSCRIBE_NAME_CAPACITY,
                msg@.take(13 + self.name@.len() as int) == header_part + self.name@,
                forall|j: int| 13 + self.name@.len() <= j < msg@.len() ==> msg@[j] == 0u8,
            decreases 13 + SUBSCRIBE_NAME_CAPACITY - msg@.len(),
        {
            msg.push(0);
            proof {
                assert(msg@.take(13 + self.name@.len() as int) =~= msg@.drop_last().take(
                    13 + self.name@.len() as int,
                ));
            }
        }
        proof {
            assert(msg@ =~= spec_subscription_message(self.freq, self.index, self.name@));
        }
        msg
    }

    /// Sets the frequency to zero, the wire-level signal to stop streaming,
    /// and encodes the resulting request.
    pub fn unsubscribe_message(&mut self) -> (msg: Vec<u8>)
        requires
            old(self).name@.len() <= SUBSCRIBE_NAME_CAPACITY,
        ensures
            *final(self) == (DataRef { freq: 0, ..*old(self) }),
            msg@ == spec_subscription_message(0, old(self).index, old(self).name@),
    {
        self.freq = 0;
        self.subscription_message()
    }

    pub fn get_name(&self) -> (n: &Vec<u8>)
        ensures
            n@ == self.name@,
    {
        &self.name
    }

    pub fn get_index(&self) -> (i: i32)
        ensures
            i == self.index,
    {
        self.index
    }

    pub fn get_freq(&self) -> (f: i32)
        ensures
            f == self.freq,
    {
        self.freq
    }

    pub fn get_value_type(&self) -> (t: &DataRefType)
        ensures
            *t == self.value_type,
    {
        &self.value_type
    }
}

/// The frequency, index and name field decoded from a subscribe-request
/// frame of the fixed 413-byte shape; the inverse of
/// [`DataRef::subscription_message`].
pub fn decode_subscription_message(data: &[u8]) -> (r: Result<(i32, i32, Vec<u8>), XpError>)
    ensures
        match r {
            Ok((freq, index, name)) => {
                &&& data@.len() == 13 + SUBSCRIBE_NAME_CAPACITY
                &&& spec_has_rref_prefix(data@)
                &&& freq == spec_i32_from_bits(spec_u32_from_le_bytes(data@.subrange(5, 9)))
                &&& index == spec_i32_from_bits(spec_u32_from_le_bytes(data@.subrange(9, 13)))
                &&& name@ == data@.subrange(13, 13 + SUBSCRIBE_NAME_CAPACITY)
            },
            Err(e) => {
                &&& e == XpError::ProtocolDecode
                &&& !(data@.len() == 13 + SUBSCRIBE_NAME_CAPACITY && spec_has_rref_prefix(data@))
            },
        },
{
    if data.len() != 13 + SUBSCRIBE_NAME_CAPACITY {
        return Err(XpError::ProtocolDecode);
    }
    if !(data[0] == 82 && data[1] == 82 && data[2] == 69 && data[3] == 70) {
        return Err(XpError::ProtocolDecode);
    }
    let freq = i32_from_bits(u32_from_le_bytes(slice_subrange(data, 5, 9)));
    let index = i32_from_bits(u32_from_le_bytes(slice_subrange(data, 9, 13)));
    let name_field = slice_subrange(data, 13, 13 + SUBSCRIBE_NAME_CAPACITY);
    let mut name: Vec<u8> = Vec::new();
    let mut i: usize = 0;
    while i < name_field.len()
        invariant
            0 <= i <= name_field@.len(),
            name@ == name_field@.take(i as int),
        decreases name_field@.len() - i,
    {
        name.push(name_field[i]);
        proof {
            assert(name_field@.take(i as int) + seq![name_field@[i as int]] =~= name_field@.take(
                i as int + 1,
            ));
        }
        i = i + 1;
    }
    proof {
        assert(name_field@.take(name_field@.len() as int) =~= name_field@);
    }
    Ok((freq, index, name))
}

/// Encoding a subscribe request and decoding it again yields the same
/// frequency and index, and a name field that is the given name padded
/// with NUL bytes to the fixed capacity.
pub proof fn lemma_subscription_roundtrip(freq: i32, index: i32, name: Seq<u8>)
    requires
        name.len() <= SUBSCRIBE_NAME_CAPACITY,
    ensures
        ({
            let msg = spec_subscription_message(freq, index, name);
            &&& msg.len() == 13 + SUBSCRIBE_NAME_CAPACITY
            &&& spec_has_rref_prefix(msg)
            &&& spec_i32_from_bits(spec_u32_from_le_bytes(msg.subrange(5, 9))) == freq
            &&& spec_i32_from_bits(spec_u32_from_le_bytes(msg.subrange(9, 13))) == index
            &&& msg.subrange(13, 13 + SUBSCRIBE_NAME_CAPACITY) == name + Seq::<u8>::new(
                (SUBSCRIBE_NAME_CAPACITY - name.len()) as nat,
                |i: int| 0u8,
            )
        }),
{
    lemma_auto_spec_u32_to_from_le_bytes();
    let msg = spec_subscription_message(freq, index, name);
    assert(msg.subrange(5, 9) =~= spec_u32_to_le_bytes(spec_i32_to_bits(freq)));
    assert(msg.subrange(9, 13) =~= spec_u32_to_le_bytes(spec_i32_to_bits(index)));
    assert(msg.subrange(13, 13 + SUBSCRIBE_NAME_CAPACITY) =~= name + Seq::<u8>::new(
        (SUBSCRIBE_NAME_CAPACITY - name.len()) as nat,
        |i: int| 0u8,
    ));
    crate::utils::lemma_i32_bits_roundtrip(freq);
    crate::utils::lemma_i32_bits_roundtrip(index);
}

} // verus!
