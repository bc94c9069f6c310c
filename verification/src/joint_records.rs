//! Fixed-layout byte records of passports, student cards and employee cards, which joint
//! credentials commit to, and the holder tag that binds several credentials to one holder.

use vstd::prelude::*;

verus! {

pub const PASSPORT_NAME_LEN: usize = 16;
pub const PASSPORT_NATIONALITY_LEN: usize = 3;
pub const PASSPORT_DOB_OFF: usize = 16;
pub const PASSPORT_NATIONALITY_OFF: usize = 20;
pub const PASSPORT_EXPIRY_OFF: usize = 23;
pub const PASSPORT_HOLDER_TAG_OFF: usize = 27;
pub const PASSPORT_RECORD_LEN: usize = 43;

pub const STUDENT_NAME_LEN: usize = 16;
pub const STUDENT_SCHOOL_OFF: usize = 16;
pub const STUDENT_SCHOOL_LEN: usize = 16;
pub const STUDENT_EXPIRY_OFF: usize = 32;
pub const STUDENT_HOLDER_TAG_OFF: usize = 36;
pub const STUDENT_RECORD_LEN: usize = 52;

pub const EMPLOYEE_NAME_LEN: usize = 16;
pub const EMPLOYEE_COMPANY_OFF: usize = 16;
pub const EMPLOYEE_COMPANY_LEN: usize = 16;
pub const EMPLOYEE_EXPIRY_OFF: usize = 32;
pub const EMPLOYEE_HOLDER_TAG_OFF: usize = 36;
pub const EMPLOYEE_RECORD_LEN: usize = 52;

pub const HOLDER_TAG_LEN: usize = 16;

/// The first `n` bytes of `input`, followed by zero bytes up to `n` bytes.
pub open spec fn padded(input: Seq<u8>, n: nat) -> Seq<u8> {
    Seq::new(n, |i: int| if i < input.len() { input[i] } else { 0u8 })
}

/// The big-endian encoding of a 32-bit integer.
pub open spec fn be_u32(x: u32) -> Seq<u8> {
    seq![
        (x as nat / 0x1000000) as u8,
        ((x as nat / 0x10000) % 256) as u8,
        ((x as nat / 0x100) % 256) as u8,
        (x as nat % 256) as u8,
    ]
}

/// A passport record: name (16 bytes), date of birth, nationality (3 bytes), expiry date and
/// holder tag (16 bytes).
pub open spec fn passport_record(
    name: Seq<u8>,
    nationality: Seq<u8>,
    dob: u32,
    expiry: u32,
    holder_tag: Seq<u8>,
) -> Seq<u8> {
    padded(name, 16) + be_u32(dob) + nationality + be_u32(expiry) + holder_tag
}

/// A student-card or employee-card record: name (16 bytes), school or company (16 bytes),
/// expiry date and holder tag (16 bytes).
pub open spec fn card_record(name: Seq<u8>, org: Seq<u8>, expiry: u32, holder_tag: Seq<u8>) -> Seq<
    u8,
> {
    padded(name, 16) + padded(org, 16) + be_u32(expiry) + holder_tag
}

/// `input` cut or padded with zero bytes to exactly `n` bytes.
pub fn pad_bytes(input: &[u8], n: usize) -> (r: Vec<u8>)
    ensures
        r@ == padded(input@, n as nat),
{
    let mut r: Vec<u8> = Vec::new();
    let mut i: usize = 0;
    while i < n
        invariant
            0 <= i <= n,
            r@ == padded(input@, i as nat),
        decreases n - i,
    {
        if i < input.len() {
            r.push(input[i]);
        } else {
            r.push(0u8);
        }
        i = i + 1;
        assert(r@ =~= padded(input@, i as nat));
    }
    r
}

/// The big-endian bytes of `x`.
fn u32_to_be_bytes(x: u32) -> (r: Vec<u8>)
    ensures
        r@ == be_u32(x),
{
    let mut r: Vec<u8> = Vec::new();
    r.push((x / 0x1000000) as u8);
    r.push(((x / 0x10000) % 256) as u8);
    r.push(((x / 0x100) % 256) as u8);
    r.push((x % 256) as u8);
    assert(r@ =~= be_u32(x));
    r
}

/// Appends `b` to `out`.
fn append(out: &mut Vec<u8>, b: &[u8])
    ensures
        final(out)@ == old(out)@ + b@,
{
    let mut i: usize = 0;
    while i < b.len()
        invariant
            0 <= i <= b.len(),
            out@ == old(out)@ + b@.take(i as int),
        decreases b.len() - i,
    {
        out.push(b[i]);
        i = i + 1;
        assert(out@ =~= old(out)@ + b@.take(i as int));
    }
    assert(b@.take(b.len() as int) =~= b@);
}

/// A passport record with the given fields.
pub fn passport_blob(
    name: &[u8],
    nationality: [u8; 3],
    dob: u32,
    expiry: u32,
    holder_tag: [u8; 16],
) -> (r: [u8; 43])
    ensures
        r@ == passport_record(name@, nationality@, dob, expiry, holder_tag@),
        forall|i: int|
            0 <= i < 16 ==> #[trigger] r@[i] == (if i < name@.len() {
                name@[i]
            } else {
                0u8
            }),
        ((r[16] as nat * 256 + r[17] as nat) * 256 + r[18] as nat) * 256 + r[19] as nat
            == dob as nat,
        r@.subrange(20, 23) == nationality@,
        ((r[23] as nat * 256 + r[24] as nat) * 256 + r[25] as nat) * 256 + r[26] as nat
            == expiry as nat,
        r@.subrange(27, 43) == holder_tag@,
{
    proof {
        lemma_passport_fields_at_offsets(name@, nationality@, dob, expiry, holder_tag@);
    }
    let mut v = pad_bytes(name, PASSPORT_NAME_LEN);
    let dob_bytes = u32_to_be_bytes(dob);
    append(&mut v, dob_bytes.as_slice());
    append(&mut v, nationality.as_slice());
    let expiry_bytes = u32_to_be_bytes(expiry);
    append(&mut v, expiry_bytes.as_slice());
    append(&mut v, holder_tag.as_slice());
    let mut blob = [0u8; 43];
    let mut i: usize = 0;
    while i < 43
        invariant
            0 <= i <= 43,
            v@ == passport_record(name@, nationality@, dob, expiry, holder_tag@),
            v@.len() == 43,
            forall|j: int| 0 <= j < i ==> blob[j] == v@[j],
        decreases 43 - i,
    {
        blob[i] = v[i];
        i = i + 1;
    }
    assert(blob@ =~= v@);
    blob
}

/// A card record (student or employee card) with the given fields.
fn card_blob(name: &[u8], org: &[u8], expiry: u32, holder_tag: [u8; 16]) -> (r: [u8; 52])
    ensures
        r@ == card_record(name@, org@, expiry, holder_tag@),
{
    let mut v = pad_bytes(name, 16);
    let org_bytes = pad_bytes(org, 16);
    append(&mut v, org_bytes.as_slice());
    let expiry_bytes = u32_to_be_bytes(expiry);
    append(&mut v, expiry_bytes.as_slice());
    append(&mut v, holder_tag.as_slice());
    let mut blob = [0u8; 52];
    let mut i: usize = 0;
    while i < 52
        invariant
            0 <= i <= 52,
            v@ == card_record(name@, org@, expiry, holder_tag@),
            v@.len() == 52,
            forall|j: int| 0 <= j < i ==> blob[j] == v@[j],
        decreases 52 - i,
    {
        blob[i] = v[i];
        i = i + 1;
    }
    assert(blob@ =~= v@);
    blob
}

/// A student-card record with the given fields.
pub fn student_blob(name: &[u8], school: &[u8], expiry: u32, holder_tag: [u8; 16]) -> (r: [u8; 52])
    ensures
        r@ == card_record(name@, school@, expiry, holder_tag@),
{
    card_blob(name, school, expiry, holder_tag)
}

/// An employee-card record with the given fields.
pub fn employee_blob(name: &[u8], company: &[u8], expiry: u32, holder_tag: [u8; 16]) -> (r: [u8;
    52])
    ensures
        r@ == card_record(name@, company@, expiry, holder_tag@),
{
    card_blob(name, company, expiry, holder_tag)
}

/// The holder tag made of `seed` repeated.
pub fn make_holder_tag(seed: u8) -> (r: [u8; 16])
    ensures
        r@ == Seq::new(16, |i: int| seed),
{
    let r = [seed; 16];
    assert(r@ =~= Seq::new(16, |i: int| seed));
    r
}

/// Every passport record keeps its fields at fixed offsets, whatever the length of the name:
/// the name cut or zero-padded to 16 bytes, the date of birth big-endian at 16, the nationality
/// at 20, the expiry date big-endian at 23 and the holder tag at 27, 43 bytes in all.
pub proof fn lemma_passport_fields_at_offsets(
    name: Seq<u8>,
    nationality: Seq<u8>,
    dob: u32,
    expiry: u32,
    tag: Seq<u8>,
)
    requires
        nationality.len() == 3,
        tag.len() == 16,
    ensures
        ({
            let r = passport_record(name, nationality, dob, expiry, tag);
            &&& r.len() == 43
            &&& forall|i: int|
                0 <= i < 16 ==> #[trigger] r[i] == (if i < name.len() {
                    name[i]
                } else {
                    0u8
                })
            &&& ((r[16] as nat * 256 + r[17] as nat) * 256 + r[18] as nat) * 256 + r[19] as nat
                == dob as nat
            &&& r.subrange(20, 23) == nationality
            &&& ((r[23] as nat * 256 + r[24] as nat) * 256 + r[25] as nat) * 256 + r[26] as nat
                == expiry as nat
            &&& r.subrange(27, 43) == tag
        }),
{
    let r = passport_record(name, nationality, dob, expiry, tag);
    assert(r.subrange(20, 23) =~= nationality);
    assert(r.subrange(27, 43) =~= tag);
    lemma_be_u32_reads_back(dob);
    lemma_be_u32_reads_back(expiry);
    assert(r.subrange(16, 20) =~= be_u32(dob));
    assert(r.subrange(23, 27) =~= be_u32(expiry));
    assert(r[16] == be_u32(dob)[0] && r[17] == be_u32(dob)[1] && r[18] == be_u32(dob)[2]
        && r[19] == be_u32(dob)[3]);
    assert(r[23] == be_u32(expiry)[0] && r[24] == be_u32(expiry)[1] && r[25] == be_u32(expiry)[2]
        && r[26] == be_u32(expiry)[3]);
}

/// The four bytes of `be_u32(x)` read back big-endian as `x`.
pub proof fn lemma_be_u32_reads_back(x: u32)
    ensures
        be_u32(x).len() == 4,
        ((be_u32(x)[0] as nat * 256 + be_u32(x)[1] as nat) * 256 + be_u32(x)[2] as nat) * 256
            + be_u32(x)[3] as nat == x as nat,
{
    let v = x as nat;
    assert(((v / 0x1000000 * 256 + (v / 0x10000) % 256) * 256 + (v / 0x100) % 256) * 256 + v % 256
        == v) by (nonlinear_arith)
        requires
            v < 0x1_0000_0000,
    ;
}

/// A card record keeps the name and the school or company, each cut or zero-padded to 16
/// bytes, at offsets 0 and 16; the expiry date stored at 32 reads back as the value written,
/// and the holder tag sits at its offset: the fields that predicates read are where the layout says.
pub proof fn lemma_card_fields_read_back(name: Seq<u8>, org: Seq<u8>, expiry: u32, tag: Seq<u8>)
    requires
        tag.len() == 16,
    ensures
        ({
            let r = card_record(name, org, expiry, tag);
            &&& r.len() == 52
            &&& forall|i: int|
                0 <= i < 16 ==> #[trigger] r[i] == (if i < name.len() {
                    name[i]
                } else {
                    0u8
                })
            &&& forall|i: int|
                0 <= i < 16 ==> #[trigger] r[16 + i] == (if i < org.len() {
                    org[i]
                } else {
                    0u8
                })
            &&& r.subrange(32, 36) == be_u32(expiry)
            &&& r.subrange(36, 52) == tag
            &&& ((r[32] as nat * 256 + r[33] as nat) * 256 + r[34] as nat) * 256 + r[35] as nat
                == expiry as nat
        }),
{
    let r = card_record(name, org, expiry, tag);
    assert(r.subrange(32, 36) =~= be_u32(expiry));
    assert(r.subrange(36, 52) =~= tag);
    let x = expiry as nat;
    assert(((x / 0x1000000 * 256 + (x / 0x10000) % 256) * 256 + (x / 0x100) % 256) * 256 + x % 256
        == x) by (nonlinear_arith)
        requires
            x < 0x1_0000_0000,
    ;
}

} // verus!
