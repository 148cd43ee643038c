use vstd::prelude::*;
use vstd::arithmetic::power2::{lemma2_to64, lemma_pow2_adds, pow2};

use crate::duration::IdleDuration;
use crate::Error;

verus! {

/// The idle-time property value as the registry hands it out: a byte blob
/// holding the 8-byte little-endian count, a boxed 64-bit number, or some
/// third encoding the probe refuses to guess at.
pub enum PropertyValue {
    Bytes(Vec<u8>),
    Number(i64),
    Unrecognized,
}

/// The unsigned integer the bytes spell in little-endian order.
pub open spec fn le_bytes_to_u64(s: Seq<u8>) -> int
    decreases s.len(),
{
    if s.len() == 0 {
        0
    } else {
        s[0] + 256 * le_bytes_to_u64(s.drop_first())
    }
}

/// Byte `i` of the little-endian representation of `n`.
pub open spec fn le_byte_of(n: i64, i: int) -> u8 {
    (((n as u64) >> (8 * i) as u64) & 0xFF) as u8
}

proof fn lemma_le_bytes_bound(s: Seq<u8>)
    ensures
        le_bytes_to_u64(s) < pow2((8 * s.len()) as nat),
        le_bytes_to_u64(s) >= 0,
    decreases s.len(),
{
    if s.len() == 0 {
        assert(pow2(0) == 1) by {
            lemma2_to64();
        }
    } else {
        lemma_le_bytes_bound(s.drop_first());
        lemma_pow2_adds(8, (8 * (s.len() - 1)) as nat);
        assert(pow2(8) == 256) by {
            lemma2_to64();
        }
        assert(s[0] + 256 * le_bytes_to_u64(s.drop_first()) < 256 * pow2(
            (8 * (s.len() - 1)) as nat,
        )) by (nonlinear_arith)
            requires
                s[0] < 256,
                le_bytes_to_u64(s.drop_first()) < pow2((8 * (s.len() - 1)) as nat),
                le_bytes_to_u64(s.drop_first()) >= 0,
        ;
    }
}

/// Reads the 8 bytes of the blob as one little-endian unsigned count.
fn u64_from_le(bytes: &Vec<u8>) -> (n: u64)
    requires
        bytes@.len() == 8,
    ensures
        n == le_bytes_to_u64(bytes@),
{
    let mut n: u64 = 0;
    let mut i: usize = 8;
    proof {
        assert(bytes@.skip(8).len() == 0);
    }
    while i > 0
        invariant
            i <= 8,
            bytes@.len() == 8,
            n == le_bytes_to_u64(bytes@.skip(i as int)),
        decreases i,
    {
        proof {
            let s1 = bytes@.skip(i as int - 1);
            assert(s1.drop_first() =~= bytes@.skip(i as int));
            lemma_le_bytes_bound(s1);
            lemma2_to64();
            if s1.len() < 8 {
                vstd::arithmetic::power2::lemma_pow2_strictly_increases(
                    (8 * s1.len()) as nat,
                    64,
                );
            }
            assert(le_bytes_to_u64(s1) == s1[0] + 256 * le_bytes_to_u64(s1.drop_first()));
            assert(s1[0] == bytes@[i as int - 1]);
            assert(n * 256 + bytes@[i as int - 1] == le_bytes_to_u64(s1));
            assert(le_bytes_to_u64(s1) < pow2(64));
        }
        i -= 1;
        n = n * 256 + bytes[i] as u64;
    }
    proof {
        assert(bytes@.skip(0) =~= bytes@);
    }
    n
}

/// Decodes the idle-time property value into nanoseconds. A byte blob
/// yields the little-endian count its 8 bytes spell; a boxed number yields
/// its two's-complement reading as an unsigned count; any other encoding
/// is a fatal failure, never a guess.
pub fn decode_idle_nanos(value: &PropertyValue) -> (r: Result<u64, Error>)
    requires
        value matches PropertyValue::Bytes(b) ==> b@.len() == 8,
    ensures
        value matches PropertyValue::Bytes(b) ==> (r matches Ok(ns) && ns == le_bytes_to_u64(b@)),
        value matches PropertyValue::Number(n) ==> (r matches Ok(ns) && ns == n as u64),
        value is Unrecognized ==> (r matches Err(e) && e.cause@
            == "unexpected type of value returned from CFDictionaryGetValueIfPresent"@),
{
    match value {
        PropertyValue::Bytes(b) => Ok(u64_from_le(b)),
        PropertyValue::Number(n) => Ok(*n as u64),
        PropertyValue::Unrecognized => Err(
            Error::new(
                String::from_str(
                    "unexpected type of value returned from CFDictionaryGetValueIfPresent",
                ),
            ),
        ),
    }
}

/// A foreign-owned registry resource the probe acquires and must hand
/// back: the entry iterator, the matched entry, or the entry's property
/// dictionary.
#[derive(Clone, Copy, Debug, PartialEq, Eq, Structural)]
pub enum Handle {
    Iterator,
    Entry,
    Properties,
}

/// What each native registry call returned, in the order the probe makes
/// them. A status of zero means the call succeeded; a handle of zero means
/// no object was handed out. `os_error` is the OS error text current when
/// the sequence stopped, empty if it never failed.
pub struct RegistryOutcome {
    pub port_status: i32,
    pub lookup_status: i32,
    pub iterator: u32,
    pub entry: u32,
    pub properties_status: i32,
    pub key_present: bool,
    pub value: PropertyValue,
    pub os_error: String,
}

/// The iterator handle was handed out: the port opened, the lookup
/// succeeded, and it returned a non-zero iterator.
pub open spec fn iterator_acquired(o: RegistryOutcome) -> bool {
    o.port_status == 0 && o.lookup_status == 0 && o.iterator != 0
}

/// The iterator yielded a non-zero entry.
pub open spec fn entry_acquired(o: RegistryOutcome) -> bool {
    iterator_acquired(o) && o.entry != 0
}

/// The entry's property dictionary was handed out.
pub open spec fn properties_acquired(o: RegistryOutcome) -> bool {
    entry_acquired(o) && o.properties_status == 0
}

/// The handles the probe must release, in order: the iterator, then the
/// matched entry, then the property dictionary — each exactly when it was
/// acquired, whether or not a later step failed.
pub open spec fn spec_releases(o: RegistryOutcome) -> Seq<Handle> {
    (if iterator_acquired(o) {
        seq![Handle::Iterator]
    } else {
        Seq::<Handle>::empty()
    }) + (if entry_acquired(o) {
        seq![Handle::Entry]
    } else {
        Seq::<Handle>::empty()
    }) + (if properties_acquired(o) {
        seq![Handle::Properties]
    } else {
        Seq::<Handle>::empty()
    })
}

/// How often `h` occurs in `s`.
pub open spec fn occurrences(s: Seq<Handle>, h: Handle) -> nat
    decreases s.len(),
{
    if s.len() == 0 {
        0
    } else {
        (if s[0] == h {
            1nat
        } else {
            0nat
        }) + occurrences(s.drop_first(), h)
    }
}

proof fn lemma_occurrences_append(a: Seq<Handle>, b: Seq<Handle>, h: Handle)
    ensures
        occurrences(a + b, h) == occurrences(a, h) + occurrences(b, h),
    decreases a.len(),
{
    if a.len() == 0 {
        assert(a + b =~= b);
    } else {
        assert((a + b).drop_first() =~= a.drop_first() + b);
        lemma_occurrences_append(a.drop_first(), b, h);
    }
}

proof fn lemma_occurrences_singleton(x: Handle, h: Handle)
    ensures
        occurrences(seq![x], h) == if x == h {
            1nat
        } else {
            0nat
        },
{
    assert(seq![x].drop_first() =~= Seq::<Handle>::empty());
    assert(occurrences(Seq::<Handle>::empty(), h) == 0);
    assert(occurrences(seq![x], h) == (if x == h {
        1nat
    } else {
        0nat
    }) + occurrences(seq![x].drop_first(), h));
}

/// Every handle the sequence acquired is released exactly once, and one it
/// never acquired is never released: no double-release, no leak, on the
/// success path and on every failure path alike.
pub proof fn lemma_release_exactly_once(o: RegistryOutcome)
    ensures
        occurrences(spec_releases(o), Handle::Iterator) == if iterator_acquired(o) {
            1nat
        } else {
            0nat
        },
        occurrences(spec_releases(o), Handle::Entry) == if entry_acquired(o) {
            1nat
        } else {
            0nat
        },
        occurrences(spec_releases(o), Handle::Properties) == if properties_acquired(o) {
            1nat
        } else {
            0nat
        },
{
    let a = if iterator_acquired(o) {
        seq![Handle::Iterator]
    } else {
        Seq::<Handle>::empty()
    };
    let b = if entry_acquired(o) {
        seq![Handle::Entry]
    } else {
        Seq::<Handle>::empty()
    };
    let c = if properties_acquired(o) {
        seq![Handle::Properties]
    } else {
        Seq::<Handle>::empty()
    };
    lemma_occurrences_append(a + b, c, Handle::Iterator);
    lemma_occurrences_append(a, b, Handle::Iterator);
    lemma_occurrences_append(a + b, c, Handle::Entry);
    lemma_occurrences_append(a, b, Handle::Entry);
    lemma_occurrences_append(a + b, c, Handle::Properties);
    lemma_occurrences_append(a, b, Handle::Properties);
    lemma_occurrences_singleton(Handle::Iterator, Handle::Iterator);
    lemma_occurrences_singleton(Handle::Entry, Handle::Iterator);
    lemma_occurrences_singleton(Handle::Properties, Handle::Iterator);
    lemma_occurrences_singleton(Handle::Iterator, Handle::Entry);
    lemma_occurrences_singleton(Handle::Entry, Handle::Entry);
    lemma_occurrences_singleton(Handle::Properties, Handle::Entry);
    lemma_occurrences_singleton(Handle::Iterator, Handle::Properties);
    lemma_occurrences_singleton(Handle::Entry, Handle::Properties);
    lemma_occurrences_singleton(Handle::Properties, Handle::Properties);
}

/// What the probe decided and what it must hand back to the registry.
pub struct ProbeOutcome {
    pub result: Result<IdleDuration, Error>,
    pub releases: Vec<Handle>,
}

/// The whole registry walk, decided from the native call outcomes: each
/// step short-circuits to its own failure, a decodable idle-time value
/// becomes the nanosecond duration, and `releases` lists every acquired
/// handle exactly once, in acquisition order, on every path.
pub fn idle(o: &RegistryOutcome) -> (out: ProbeOutcome)
    requires
        o.value matches PropertyValue::Bytes(b) ==> b@.len() == 8,
    ensures
        out.releases@ == spec_releases(*o),
        o.port_status != 0 ==> (out.result matches Err(e) && e.cause@
            == "unable to open mach port: "@ + o.os_error@),
        o.port_status == 0 && o.lookup_status != 0 ==> (out.result matches Err(e) && e.cause@
            == "unable to lookup IOHIDSystem: "@ + o.os_error@),
        o.port_status == 0 && o.lookup_status == 0 && o.iterator == 0 ==> (out.result matches Err(e)
            && e.cause@ == "unable to get IOHIDSystem service"@),
        iterator_acquired(*o) && o.entry == 0 ==> (out.result matches Err(e) && e.cause@
            == "IOIteratorNext failed: "@ + o.os_error@),
        entry_acquired(*o) && o.properties_status != 0 ==> (out.result matches Err(e) && e.cause@
            == "unable to get properties: "@ + o.os_error@),
        properties_acquired(*o) && !o.key_present ==> (out.result matches Err(e) && e.cause@
            == "CFDictionaryGetValueIfPresent failed: "@ + o.os_error@),
        properties_acquired(*o) && o.key_present && o.value is Unrecognized ==> (out.result matches
            Err(e) && e.cause@
            == "unexpected type of value returned from CFDictionaryGetValueIfPresent"@),
        o.value matches PropertyValue::Bytes(b) ==> ((properties_acquired(*o) && o.key_present)
            ==> (out.result matches Ok(d) && d.wf() && d.total_nanos() == le_bytes_to_u64(b@))),
        o.value matches PropertyValue::Number(n) ==> ((properties_acquired(*o) && o.key_present)
            ==> (out.result matches Ok(d) && d.wf() && d.total_nanos() == n as u64)),
{
    let iterator_held = o.port_status == 0 && o.lookup_status == 0 && o.iterator != 0;
    let entry_held = iterator_held && o.entry != 0;
    let properties_held = entry_held && o.properties_status == 0;
    let mut releases: Vec<Handle> = Vec::new();
    if iterator_held {
        releases.push(Handle::Iterator);
    }
    if entry_held {
        releases.push(Handle::Entry);
    }
    if properties_held {
        releases.push(Handle::Properties);
    }
    proof {
        assert(releases@ =~= spec_releases(*o));
    }
    let result: Result<IdleDuration, Error> = if o.port_status != 0 {
        Err(Error::new(String::from_str("unable to open mach port: ").concat(o.os_error.as_str())))
    } else if o.lookup_status != 0 {
        Err(Error::new(String::from_str("unable to lookup IOHIDSystem: ").concat(
            o.os_error.as_str(),
        )))
    } else if o.iterator == 0 {
        Err(Error::new(String::from_str("unable to get IOHIDSystem service")))
    } else if o.entry == 0 {
        Err(Error::new(String::from_str("IOIteratorNext failed: ").concat(o.os_error.as_str())))
    } else if o.properties_status != 0 {
        Err(Error::new(String::from_str("unable to get properties: ").concat(o.os_error.as_str())))
    } else if !o.key_present {
        Err(Error::new(String::from_str("CFDictionaryGetValueIfPresent failed: ").concat(
            o.os_error.as_str(),
        )))
    } else {
        match decode_idle_nanos(&o.value) {
            Ok(ns) => Ok(IdleDuration::from_nanos(ns)),
            Err(e) => Err(e),
        }
    };
    ProbeOutcome { result, releases }
}

/// A blob that spells the little-endian bytes of `n` decodes to the same
/// count as the boxed number `n` itself: the two encodings of one value
/// cannot come apart.
pub proof fn lemma_encoding_independence(bytes: Seq<u8>, n: i64)
    requires
        bytes.len() == 8,
        forall|i: int| 0 <= i < 8 ==> bytes[i] == le_byte_of(n, i),
    ensures
        le_bytes_to_u64(bytes) == n as u64,
{
    let x = n as u64;
    assert((x >> 0u64) & 0xFF < 256) by (bit_vector);
    assert((x >> 8u64) & 0xFF < 256) by (bit_vector);
    assert((x >> 16u64) & 0xFF < 256) by (bit_vector);
    assert((x >> 24u64) & 0xFF < 256) by (bit_vector);
    assert((x >> 32u64) & 0xFF < 256) by (bit_vector);
    assert((x >> 40u64) & 0xFF < 256) by (bit_vector);
    assert((x >> 48u64) & 0xFF < 256) by (bit_vector);
    assert((x >> 56u64) & 0xFF < 256) by (bit_vector);
    reveal_with_fuel(le_bytes_to_u64, 10);
    assert(((x >> 0u64) & 0xFF) + 256 * (((x >> 8u64) & 0xFF) + 256 * (((x >> 16u64) & 0xFF) + 256
        * (((x >> 24u64) & 0xFF) + 256 * (((x >> 32u64) & 0xFF) + 256 * (((x >> 40u64) & 0xFF) + 256
        * (((x >> 48u64) & 0xFF) + 256 * ((x >> 56u64) & 0xFF))))))) == x) by (bit_vector);
}

} // verus!
