use vstd::prelude::*;

verus! {

/// Number of bytes that the greeting state occupies in its account.
pub const GREETING_DATA_SIZE: usize = 4;

/// Define the type of state stored in accounts
pub struct GreetingAccount {
    /// number of greetings
    pub counter: u32,
}

/// The little-endian reading of four bytes.
pub open spec fn le_u32(b: Seq<u8>) -> int
    recommends
        b.len() == 4,
{
    b[0] as int + 256 * b[1] as int + 65536 * b[2] as int + 16777216 * b[3] as int
}

/// The four little-endian bytes of a counter value.
pub open spec fn counter_bytes(v: u32) -> Seq<u8> {
    seq![
        (v % 256) as u8,
        ((v / 256) % 256) as u8,
        ((v / 65536) % 256) as u8,
        (v / 16777216) as u8,
    ]
}

/// What decoding an account's bytes gives: the counter when exactly
/// four bytes are held, nothing otherwise.
pub open spec fn decoded_counter(data: Seq<u8>) -> Option<u32> {
    if data.len() == GREETING_DATA_SIZE {
        Some(le_u32(data) as u32)
    } else {
        None
    }
}

/// Decoding the encoding of a counter gives the counter back.
pub proof fn lemma_counter_round_trip(v: u32)
    ensures
        counter_bytes(v).len() == GREETING_DATA_SIZE,
        le_u32(counter_bytes(v)) == v as int,
        decoded_counter(counter_bytes(v)) == Some(v),
{
    let x = v as int;
    assert(x == (x % 256) + 256 * ((x / 256) % 256) + 65536 * ((x / 65536) % 256)
        + 16777216 * (x / 16777216)) by (nonlinear_arith)
        requires
            0 <= x < 0x1_0000_0000,
    ;
}

/// Relies on borsh::from_slice for `u32`: it reads four little-endian bytes and
/// fails when the slice holds fewer, or more than it read.
#[verifier::external_body]
fn borsh_u32(data: &[u8]) -> (r: Option<u32>)
    ensures
        r is Some <==> data@.len() == 4,
        r matches Some(v) ==> v as int == le_u32(data@),
{
    borsh::from_slice::<u32>(data).ok()
}

impl GreetingAccount {
    /// Decodes the state held in a greeting account's data.
    pub fn decode(data: &[u8]) -> (r: Option<GreetingAccount>)
        ensures
            r matches Some(g) ==> decoded_counter(data@) == Some(g.counter),
            r is None <==> decoded_counter(data@) is None,
    {
        match borsh_u32(data) {
            Some(v) => Some(GreetingAccount { counter: v }),
            None => None,
        }
    }

    /// The bytes that hold this state in a greeting account.
    pub fn encode(&self) -> (r: Vec<u8>)
        ensures
            r@ == counter_bytes(self.counter),
    {
        let v = self.counter;
        let r = vec![
            (v % 256) as u8,
            ((v / 256) % 256) as u8,
            ((v / 65536) % 256) as u8,
            (v / 16777216) as u8,
        ];
        assert(r@ =~= counter_bytes(v));
        r
    }
}

} // verus!
