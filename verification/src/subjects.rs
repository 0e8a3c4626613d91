//! Academic-subject and dating-purpose bitsets.
//!
//! Each set is a fixed-width bitmask with one bit per catalog entry.
//! Bit positions are stable because the values are persisted. A set is
//! well formed when only defined bits are present; decoding a raw value
//! with unknown bits fails.
//!
//! Subject lists are shown sorted case-insensitively by label; since the
//! catalog is fixed, that order is itself a fixed permutation of the
//! catalog, written down here once. Purpose lists keep catalog order.

use vstd::prelude::*;

verus! {

/// All defined subject bits: one bit per catalog entry.
pub const SUBJECTS_MASK: u32 = 0x00FF_FFFF;

/// All defined dating-purpose bits.
pub const PURPOSE_MASK: u16 = 0x0007;

/// Error for a raw bit pattern holding bits outside the catalog.
#[derive(Clone, Copy, Debug, PartialEq, Eq, Structural)]
pub enum BitsError {
    UnknownBits,
}

impl BitsError {
    /// Operator-facing description of the error.
    pub fn message(&self) -> (r: &'static str)
        ensures
            r@ == "can't construct subjects from bits"@,
    {
        "can't construct subjects from bits"
    }
}

/// Set of academic subjects, one bit per subject.
#[derive(Clone, Copy, Debug, PartialEq, Eq, Hash, Structural)]
pub struct Subjects {
    pub bits: u32,
}

/// Set of dating purposes, one bit per purpose.
#[derive(Clone, Copy, Debug, PartialEq, Eq, Hash, Structural)]
pub struct DatingPurpose {
    pub bits: u16,
}

impl Subjects {
    /// Only defined catalog bits are present.
    pub open spec fn wf(self) -> bool {
        self.bits & SUBJECTS_MASK == self.bits
    }

    /// The set after toggling every bit of `other`.
    pub open spec fn spec_toggle(self, other: Subjects) -> Subjects {
        Subjects { bits: self.bits ^ other.bits }
    }

    /// The empty set.
    pub fn empty() -> (r: Self)
        ensures
            r.bits == 0,
            r.wf(),
    {
        proof {
            assert(0u32 & SUBJECTS_MASK == 0u32) by (bit_vector);
        }
        Subjects { bits: 0 }
    }

    /// Decodes a persisted value; fails on bits outside the catalog.
    pub fn from_bits(v: i32) -> (r: Option<Self>)
        ensures
            r is Some <==> 0 <= v && (v as u32) & SUBJECTS_MASK == v as u32,
            r is Some ==> r->0.bits == v as u32 && r->0.wf(),
    {
        if v < 0 {
            return None;
        }
        let u = v as u32;
        if u & SUBJECTS_MASK == u {
            Some(Subjects { bits: u })
        } else {
            None
        }
    }

    /// The persisted representation.
    pub fn bits_i32(&self) -> (r: i32)
        requires
            self.wf(),
        ensures
            r == self.bits as i32,
            r >= 0,
    {
        proof {
            let b = self.bits;
            assert(b & SUBJECTS_MASK == b ==> b < 0x0100_0000u32) by (bit_vector);
        }
        self.bits as i32
    }

    /// XORs the bits of `other` into the set.
    pub fn toggle(&self, other: Subjects) -> (r: Self)
        ensures
            r == self.spec_toggle(other),
            self.wf() && other.wf() ==> r.wf(),
    {
        proof {
            let a = self.bits;
            let b = other.bits;
            assert(a & SUBJECTS_MASK == a && b & SUBJECTS_MASK == b
                ==> (a ^ b) & SUBJECTS_MASK == (a ^ b)) by (bit_vector);
        }
        Subjects { bits: self.bits ^ other.bits }
    }

    /// True when no subject is selected.
    pub fn is_empty(&self) -> (r: bool)
        ensures
            r == (self.bits == 0),
    {
        self.bits == 0
    }

    /// True when the two sets share at least one subject.
    pub fn intersects(&self, other: &Subjects) -> (r: bool)
        ensures
            r == (self.bits & other.bits != 0),
    {
        self.bits & other.bits != 0
    }
}

/// Toggling the same bits twice returns any subject set to where it began.
pub proof fn lemma_toggle_twice(s: Subjects, b: Subjects)
    ensures
        s.spec_toggle(b).spec_toggle(b) == s,
{
    let a = s.bits;
    let c = b.bits;
    assert((a ^ c) ^ c == a) by (bit_vector);
}

/// Toggling the same bits twice returns any purpose set to where it began.
pub proof fn lemma_purpose_toggle_twice(s: DatingPurpose, b: DatingPurpose)
    ensures
        s.spec_toggle(b).spec_toggle(b) == s,
{
    let a = s.bits;
    let c = b.bits;
    assert((a ^ c) ^ c == a) by (bit_vector);
}

impl DatingPurpose {
    /// Only defined catalog bits are present.
    pub open spec fn wf(self) -> bool {
        self.bits & PURPOSE_MASK == self.bits
    }

    /// The set after toggling every bit of `other`.
    pub open spec fn spec_toggle(self, other: DatingPurpose) -> DatingPurpose {
        DatingPurpose { bits: self.bits ^ other.bits }
    }

    /// The empty set.
    pub fn empty() -> (r: Self)
        ensures
            r.bits == 0,
            r.wf(),
    {
        proof {
            assert(0u16 & PURPOSE_MASK == 0u16) by (bit_vector);
        }
        DatingPurpose { bits: 0 }
    }

    /// Decodes a persisted value; fails on bits outside the catalog.
    pub fn from_bits(v: i16) -> (r: Option<Self>)
        ensures
            r is Some <==> 0 <= v && (v as u16) & PURPOSE_MASK == v as u16,
            r is Some ==> r->0.bits == v as u16 && r->0.wf(),
    {
        if v < 0 {
            return None;
        }
        let u = v as u16;
        if u & PURPOSE_MASK == u {
            Some(DatingPurpose { bits: u })
        } else {
            None
        }
    }

    /// The persisted representation.
    pub fn bits_i16(&self) -> (r: i16)
        requires
            self.wf(),
        ensures
            r == self.bits as i16,
            r >= 0,
    {
        proof {
            let b = self.bits;
            assert(b & PURPOSE_MASK == b ==> b < 8u16) by (bit_vector);
        }
        self.bits as i16
    }

    /// XORs the bits of `other` into the set.
    pub fn toggle(&self, other: DatingPurpose) -> (r: Self)
        ensures
            r == self.spec_toggle(other),
            self.wf() && other.wf() ==> r.wf(),
    {
        proof {
            let a = self.bits;
            let b = other.bits;
            assert(a & PURPOSE_MASK == a && b & PURPOSE_MASK == b
                ==> (a ^ b) & PURPOSE_MASK == (a ^ b)) by (bit_vector);
        }
        DatingPurpose { bits: self.bits ^ other.bits }
    }

    /// True when no purpose is selected.
    pub fn is_empty(&self) -> (r: bool)
        ensures
            r == (self.bits == 0),
    {
        self.bits == 0
    }
}

/// Label of the subject at catalog position `i`, or `None` past the catalog.
pub open spec fn subject_label_spec(i: int) -> Option<Seq<char>> {
    if i == 0 {
        Some("Искусство 🎨"@)
    } else if i == 1 {
        Some("Астрономия 🌌"@)
    } else if i == 2 {
        Some("Биология 🔬"@)
    } else if i == 3 {
        Some("Химия 🧪"@)
    } else if i == 4 {
        Some("Китайский 🇨🇳"@)
    } else if i == 5 {
        Some("Экология ♻️"@)
    } else if i == 6 {
        Some("Экономика 💶"@)
    } else if i == 7 {
        Some("Английский 🇬🇧"@)
    } else if i == 8 {
        Some("Французский 🇫🇷"@)
    } else if i == 9 {
        Some("География 🌎"@)
    } else if i == 10 {
        Some("Немецкий 🇩🇪"@)
    } else if i == 11 {
        Some("История 📰"@)
    } else if i == 12 {
        Some("Информатика 💻"@)
    } else if i == 13 {
        Some("Итальянский 🇮🇹"@)
    } else if i == 14 {
        Some("Право 👨‍⚖️"@)
    } else if i == 15 {
        Some("Литература 📖"@)
    } else if i == 16 {
        Some("Математика 📐"@)
    } else if i == 17 {
        Some("Физика ☢️"@)
    } else if i == 18 {
        Some("Русский 🇷🇺"@)
    } else if i == 19 {
        Some("ОБЖ 🪖"@)
    } else if i == 20 {
        Some("Обществознание 👫"@)
    } else if i == 21 {
        Some("Испанский 🇪🇸"@)
    } else if i == 22 {
        Some("Физкультура 🏐"@)
    } else if i == 23 {
        Some("Технология 🚜"@)
    } else {
        None
    }
}

/// What `Subjects::name` returns for a raw bit pattern: the label when
/// exactly one catalog bit is set, nothing otherwise.
pub open spec fn subjects_name_spec(bits: u32) -> Option<Seq<char>> {
    if bits == 0x1 {
        subject_label_spec(0)
    } else if bits == 0x2 {
        subject_label_spec(1)
    } else if bits == 0x4 {
        subject_label_spec(2)
    } else if bits == 0x8 {
        subject_label_spec(3)
    } else if bits == 0x10 {
        subject_label_spec(4)
    } else if bits == 0x20 {
        subject_label_spec(5)
    } else if bits == 0x40 {
        subject_label_spec(6)
    } else if bits == 0x80 {
        subject_label_spec(7)
    } else if bits == 0x100 {
        subject_label_spec(8)
    } else if bits == 0x200 {
        subject_label_spec(9)
    } else if bits == 0x400 {
        subject_label_spec(10)
    } else if bits == 0x800 {
        subject_label_spec(11)
    } else if bits == 0x1000 {
        subject_label_spec(12)
    } else if bits == 0x2000 {
        subject_label_spec(13)
    } else if bits == 0x4000 {
        subject_label_spec(14)
    } else if bits == 0x8000 {
        subject_label_spec(15)
    } else if bits == 0x10000 {
        subject_label_spec(16)
    } else if bits == 0x20000 {
        subject_label_spec(17)
    } else if bits == 0x40000 {
        subject_label_spec(18)
    } else if bits == 0x80000 {
        subject_label_spec(19)
    } else if bits == 0x100000 {
        subject_label_spec(20)
    } else if bits == 0x200000 {
        subject_label_spec(21)
    } else if bits == 0x400000 {
        subject_label_spec(22)
    } else if bits == 0x800000 {
        subject_label_spec(23)
    } else {
        None
    }
}

impl Subjects {
    /// Name of exactly one subject.
    pub fn name(&self) -> (r: Result<&'static str, ()>)
        ensures
            r is Ok <==> subjects_name_spec(self.bits) is Some,
            r is Ok ==> r->Ok_0@ == subjects_name_spec(self.bits)->0,
    {
        match self.bits {
            0x1 => Ok("Искусство 🎨"),
            0x2 => Ok("Астрономия 🌌"),
            0x4 => Ok("Биология 🔬"),
            0x8 => Ok("Химия 🧪"),
            0x10 => Ok("Китайский 🇨🇳"),
            0x20 => Ok("Экология ♻️"),
            0x40 => Ok("Экономика 💶"),
            0x80 => Ok("Английский 🇬🇧"),
            0x100 => Ok("Французский 🇫🇷"),
            0x200 => Ok("География 🌎"),
            0x400 => Ok("Немецкий 🇩🇪"),
            0x800 => Ok("История 📰"),
            0x1000 => Ok("Информатика 💻"),
            0x2000 => Ok("Итальянский 🇮🇹"),
            0x4000 => Ok("Право 👨‍⚖️"),
            0x8000 => Ok("Литература 📖"),
            0x10000 => Ok("Математика 📐"),
            0x20000 => Ok("Физика ☢️"),
            0x40000 => Ok("Русский 🇷🇺"),
            0x80000 => Ok("ОБЖ 🪖"),
            0x100000 => Ok("Обществознание 👫"),
            0x200000 => Ok("Испанский 🇪🇸"),
            0x400000 => Ok("Физкультура 🏐"),
            0x800000 => Ok("Технология 🚜"),
            _ => Err(()),
        }
    }
}

/// Label of the purpose at catalog position `i`.
pub open spec fn purpose_label_spec(i: int) -> Option<Seq<char>> {
    if i == 0 {
        Some("Дружба 🧑‍🤝‍🧑"@)
    } else if i == 1 {
        Some("Учёба 📚"@)
    } else if i == 2 {
        Some("Отношения 💕"@)
    } else {
        None
    }
}

/// What `DatingPurpose::name` returns for a raw bit pattern.
pub open spec fn purpose_name_spec(bits: u16) -> Option<Seq<char>> {
    if bits == 0x1 {
        purpose_label_spec(0)
    } else if bits == 0x2 {
        purpose_label_spec(1)
    } else if bits == 0x4 {
        purpose_label_spec(2)
    } else {
        None
    }
}

impl DatingPurpose {
    /// Name of exactly one purpose.
    pub fn name(&self) -> (r: Result<&'static str, ()>)
        ensures
            r is Ok <==> purpose_name_spec(self.bits) is Some,
            r is Ok ==> r->Ok_0@ == purpose_name_spec(self.bits)->0,
    {
        match self.bits {
            0x1 => Ok("Дружба 🧑‍🤝‍🧑"),
            0x2 => Ok("Учёба 📚"),
            0x4 => Ok("Отношения 💕"),
            _ => Err(()),
        }
    }
}

/// Subject bit shown at display position `k` (labels sorted
/// case-insensitively), or 0 past the end.
pub open spec fn display_bit_spec(k: int) -> u32 {
    if k == 0 {
        0x80
    } else if k == 1 {
        0x2
    } else if k == 2 {
        0x4
    } else if k == 3 {
        0x200
    } else if k == 4 {
        0x1000
    } else if k == 5 {
        0x1
    } else if k == 6 {
        0x200000
    } else if k == 7 {
        0x800
    } else if k == 8 {
        0x2000
    } else if k == 9 {
        0x10
    } else if k == 10 {
        0x8000
    } else if k == 11 {
        0x10000
    } else if k == 12 {
        0x400
    } else if k == 13 {
        0x80000
    } else if k == 14 {
        0x100000
    } else if k == 15 {
        0x4000
    } else if k == 16 {
        0x40000
    } else if k == 17 {
        0x800000
    } else if k == 18 {
        0x20000
    } else if k == 19 {
        0x400000
    } else if k == 20 {
        0x100
    } else if k == 21 {
        0x8
    } else if k == 22 {
        0x20
    } else if k == 23 {
        0x40
    } else {
        0
    }
}

/// Label of the subject shown at display position `k`.
pub open spec fn display_label_spec(k: int) -> Seq<char> {
    if subjects_name_spec(display_bit_spec(k)) is Some {
        subjects_name_spec(display_bit_spec(k))->0
    } else {
        Seq::empty()
    }
}

/// Subject bit at display position `k`.
fn display_bit(k: usize) -> (r: u32)
    requires
        k < 24,
    ensures
        r == display_bit_spec(k as int),
{
    match k {
        0 => 0x80,
        1 => 0x2,
        2 => 0x4,
        3 => 0x200,
        4 => 0x1000,
        5 => 0x1,
        6 => 0x200000,
        7 => 0x800,
        8 => 0x2000,
        9 => 0x10,
        10 => 0x8000,
        11 => 0x10000,
        12 => 0x400,
        13 => 0x80000,
        14 => 0x100000,
        15 => 0x4000,
        16 => 0x40000,
        17 => 0x800000,
        18 => 0x20000,
        19 => 0x400000,
        20 => 0x100,
        21 => 0x8,
        22 => 0x20,
        _ => 0x40,
    }
}

/// Label of the subject at display position `k`.
fn display_label(k: usize) -> (r: &'static str)
    requires
        k < 24,
    ensures
        r@ == display_label_spec(k as int),
{
    match k {
        0 => "Английский 🇬🇧",
        1 => "Астрономия 🌌",
        2 => "Биология 🔬",
        3 => "География 🌎",
        4 => "Информатика 💻",
        5 => "Искусство 🎨",
        6 => "Испанский 🇪🇸",
        7 => "История 📰",
        8 => "Итальянский 🇮🇹",
        9 => "Китайский 🇨🇳",
        10 => "Литература 📖",
        11 => "Математика 📐",
        12 => "Немецкий 🇩🇪",
        13 => "ОБЖ 🪖",
        14 => "Обществознание 👫",
        15 => "Право 👨‍⚖️",
        16 => "Русский 🇷🇺",
        17 => "Технология 🚜",
        18 => "Физика ☢️",
        19 => "Физкультура 🏐",
        20 => "Французский 🇫🇷",
        21 => "Химия 🧪",
        22 => "Экология ♻️",
        _ => "Экономика 💶",
    }
}

/// Labels of the subjects set in `bits` from display position `k` on,
/// joined with ", "; `first` tells whether a separator is still owed.
pub open spec fn subjects_list_rest(bits: u32, k: int, first: bool) -> Seq<char>
    decreases 24 - k when k <= 24
{
    if k < 0 || k >= 24 {
        Seq::empty()
    } else if bits & display_bit_spec(k) != 0 {
        (if first {
            Seq::<char>::empty()
        } else {
            ", "@
        }) + display_label_spec(k) + subjects_list_rest(bits, k + 1, false)
    } else {
        subjects_list_rest(bits, k + 1, first)
    }
}

/// Labels of all subjects set in `bits`, sorted case-insensitively and
/// joined with ", ".
pub open spec fn subjects_list_spec(bits: u32) -> Seq<char> {
    subjects_list_rest(bits, 0, true)
}

/// Comma-separated labels of the selected subjects, in display order.
pub fn subjects_list(s: &Subjects) -> (r: String)
    ensures
        r@ == subjects_list_spec(s.bits),
{
    let mut out = String::new();
    let mut first: bool = true;
    let mut k: usize = 0;
    while k < 24
        invariant
            0 <= k <= 24,
            out@ + subjects_list_rest(s.bits, k as int, first) == subjects_list_spec(s.bits),
            first ==> out@.len() == 0,
        decreases 24 - k,
    {
        let b = display_bit(k);
        if s.bits & b != 0 {
            proof {
                if first {
                    assert(out@ + (Seq::<char>::empty() + display_label_spec(k as int)
                        + subjects_list_rest(s.bits, k as int + 1, false))
                        =~= (out@ + display_label_spec(k as int))
                            + subjects_list_rest(s.bits, k as int + 1, false));
                } else {
                    assert(out@ + (", "@ + display_label_spec(k as int)
                        + subjects_list_rest(s.bits, k as int + 1, false))
                        =~= ((out@ + ", "@) + display_label_spec(k as int))
                            + subjects_list_rest(s.bits, k as int + 1, false));
                }
            }
            if !first {
                out.append(", ");
            }
            out.append(display_label(k));
            first = false;
        }
        k = k + 1;
    }
    proof {
        assert(out@ + Seq::<char>::empty() =~= out@);
    }
    out
}

/// Labels of the purposes set in `bits` from catalog position `k` on.
pub open spec fn purpose_list_rest(bits: u16, k: int, first: bool) -> Seq<char>
    decreases 3 - k when k <= 3
{
    if k < 0 || k >= 3 {
        Seq::empty()
    } else if bits & purpose_bit_spec(k) != 0 {
        (if first {
            Seq::<char>::empty()
        } else {
            ", "@
        }) + purpose_label_of(k) + purpose_list_rest(bits, k + 1, false)
    } else {
        purpose_list_rest(bits, k + 1, first)
    }
}

/// Purpose bit at catalog position `k`.
pub open spec fn purpose_bit_spec(k: int) -> u16 {
    if k == 0 {
        0x1
    } else if k == 1 {
        0x2
    } else if k == 2 {
        0x4
    } else {
        0
    }
}

/// Label at catalog position `k`, or empty past the catalog.
pub open spec fn purpose_label_of(k: int) -> Seq<char> {
    if purpose_label_spec(k) is Some {
        purpose_label_spec(k)->0
    } else {
        Seq::empty()
    }
}

/// Labels of all purposes set in `bits`, in catalog order, joined with ", ".
pub open spec fn purpose_list_spec(bits: u16) -> Seq<char> {
    purpose_list_rest(bits, 0, true)
}

/// Purpose bit at catalog position `k`.
fn purpose_bit(k: usize) -> (r: u16)
    requires
        k < 3,
    ensures
        r == purpose_bit_spec(k as int),
{
    match k {
        0 => 0x1,
        1 => 0x2,
        _ => 0x4,
    }
}

/// Label of the purpose at catalog position `k`.
fn purpose_label(k: usize) -> (r: &'static str)
    requires
        k < 3,
    ensures
        r@ == purpose_label_of(k as int),
{
    match k {
        0 => "Дружба 🧑‍🤝‍🧑",
        1 => "Учёба 📚",
        _ => "Отношения 💕",
    }
}

/// Comma-separated labels of the selected purposes, in catalog order.
pub fn purpose_list(p: &DatingPurpose) -> (r: String)
    ensures
        r@ == purpose_list_spec(p.bits),
{
    let mut out = String::new();
    let mut first: bool = true;
    let mut k: usize = 0;
    while k < 3
        invariant
            0 <= k <= 3,
            out@ + purpose_list_rest(p.bits, k as int, first) == purpose_list_spec(p.bits),
            first ==> out@.len() == 0,
        decreases 3 - k,
    {
        let b = purpose_bit(k);
        if p.bits & b != 0 {
            proof {
                if first {
                    assert(out@ + (Seq::<char>::empty() + purpose_label_of(k as int)
                        + purpose_list_rest(p.bits, k as int + 1, false))
                        =~= (out@ + purpose_label_of(k as int))
                            + purpose_list_rest(p.bits, k as int + 1, false));
                } else {
                    assert(out@ + (", "@ + purpose_label_of(k as int)
                        + purpose_list_rest(p.bits, k as int + 1, false))
                        =~= ((out@ + ", "@) + purpose_label_of(k as int))
                            + purpose_list_rest(p.bits, k as int + 1, false));
                }
            }
            if !first {
                out.append(", ");
            }
            out.append(purpose_label(k));
            first = false;
        }
        k = k + 1;
    }
    proof {
        assert(out@ + Seq::<char>::empty() =~= out@);
    }
    out
}

} // verus!

verus! {

/// Subjects a user studies, as shown in their profile.
#[derive(Clone, Copy, Debug, PartialEq, Eq, Structural)]
pub struct UserSubjects {
    pub subjects: Subjects,
}

/// Subjects a partner should study, as a search filter.
#[derive(Clone, Copy, Debug, PartialEq, Eq, Structural)]
pub struct SubjectsFilter {
    pub subjects: Subjects,
}

/// Profile line for the subjects a user studies.
pub open spec fn user_subjects_text_spec(bits: u32) -> Seq<char> {
    if bits == 0 {
        "Ничего не ботает"@
    } else {
        "Ботает: "@ + subjects_list_spec(bits)
    }
}

/// Summary line for a subjects filter.
pub open spec fn subjects_filter_text_spec(bits: u32) -> Seq<char> {
    if bits == 0 {
        "Вам не важно, что ботает другой человек."@
    } else {
        "Предметы, хотя-бы один из которых должен ботать тот, кого вы ищете: "@
            + subjects_list_spec(bits)
    }
}

impl UserSubjects {
    /// Decodes a persisted value; fails on bits outside the catalog.
    pub fn from_bits(v: i32) -> (r: Result<UserSubjects, BitsError>)
        ensures
            r is Ok <==> 0 <= v && (v as u32) & SUBJECTS_MASK == v as u32,
            r is Ok ==> r->Ok_0.subjects.bits == v as u32 && r->Ok_0.subjects.wf(),
            r is Err ==> r->Err_0 == BitsError::UnknownBits,
    {
        match Subjects::from_bits(v) {
            Some(s) => Ok(UserSubjects { subjects: s }),
            None => Err(BitsError::UnknownBits),
        }
    }

    /// Wraps a subject set.
    pub fn of(s: Subjects) -> (r: UserSubjects)
        ensures
            r.subjects == s,
    {
        UserSubjects { subjects: s }
    }

    /// The persisted representation.
    pub fn bits_i32(&self) -> (r: i32)
        requires
            self.subjects.wf(),
        ensures
            r == self.subjects.bits as i32,
    {
        self.subjects.bits_i32()
    }

    /// Renders the profile line for these subjects.
    pub fn to_text(&self) -> (r: String)
        ensures
            r@ == user_subjects_text_spec(self.subjects.bits),
    {
        if self.subjects.is_empty() {
            "Ничего не ботает".to_owned()
        } else {
            let mut out = "Ботает: ".to_owned();
            out.append(subjects_list(&self.subjects).as_str());
            out
        }
    }
}

impl SubjectsFilter {
    /// Decodes a persisted value; fails on bits outside the catalog.
    pub fn from_bits(v: i32) -> (r: Result<SubjectsFilter, BitsError>)
        ensures
            r is Ok <==> 0 <= v && (v as u32) & SUBJECTS_MASK == v as u32,
            r is Ok ==> r->Ok_0.subjects.bits == v as u32 && r->Ok_0.subjects.wf(),
            r is Err ==> r->Err_0 == BitsError::UnknownBits,
    {
        match Subjects::from_bits(v) {
            Some(s) => Ok(SubjectsFilter { subjects: s }),
            None => Err(BitsError::UnknownBits),
        }
    }

    /// Wraps a subject set.
    pub fn of(s: Subjects) -> (r: SubjectsFilter)
        ensures
            r.subjects == s,
    {
        SubjectsFilter { subjects: s }
    }

    /// The persisted representation.
    pub fn bits_i32(&self) -> (r: i32)
        requires
            self.subjects.wf(),
        ensures
            r == self.subjects.bits as i32,
    {
        self.subjects.bits_i32()
    }

    /// Renders the summary line for this filter.
    pub fn to_text(&self) -> (r: String)
        ensures
            r@ == subjects_filter_text_spec(self.subjects.bits),
    {
        if self.subjects.is_empty() {
            "Вам не важно, что ботает другой человек.".to_owned()
        } else {
            let mut out =
                "Предметы, хотя-бы один из которых должен ботать тот, кого вы ищете: ".to_owned();
            out.append(subjects_list(&self.subjects).as_str());
            out
        }
    }
}

} // verus!
