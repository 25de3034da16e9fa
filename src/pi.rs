use vstd::prelude::*;

verus! {

/// Whether a revision code uses the old scheme or the new bit-field scheme.
#[derive(PartialEq, Eq, Structural, Clone, Copy, Debug)]
pub enum RevisionStyle {
    Old,
    New,
}

/// The revision style for a style bit.
pub open spec fn revision_style_of(number: u32) -> Option<RevisionStyle> {
    if number == 0 {
        Some(RevisionStyle::Old)
    } else if number == 1 {
        Some(RevisionStyle::New)
    } else {
        None
    }
}

impl RevisionStyle {
    /// The style for a style bit; `None` for any other number.
    pub fn from(number: u32) -> (r: Option<RevisionStyle>)
        ensures
            r == revision_style_of(number),
    {
        match number {
            0 => Some(RevisionStyle::Old),
            1 => Some(RevisionStyle::New),
            _ => None,
        }
    }

    /// "old" or "new".
    pub fn name(&self) -> (r: &'static str)
        ensures
            *self == RevisionStyle::Old ==> r@ == "old"@,
            *self == RevisionStyle::New ==> r@ == "new"@,
    {
        match self {
            RevisionStyle::Old => "old",
            RevisionStyle::New => "new",
        }
    }
}

/// Memory size of the board.
#[derive(PartialEq, Eq, Structural, Clone, Copy, Debug)]
pub enum MemorySize {
    MB256,
    MB512,
    MB1024,
}

/// The memory size for a memory field.
pub open spec fn memory_size_of(number: u32) -> Option<MemorySize> {
    if number == 0 {
        Some(MemorySize::MB256)
    } else if number == 1 {
        Some(MemorySize::MB512)
    } else if number == 2 {
        Some(MemorySize::MB1024)
    } else {
        None
    }
}

impl MemorySize {
    /// The memory size for a memory field; `None` for an unknown one.
    pub fn from(number: u32) -> (r: Option<MemorySize>)
        ensures
            r == memory_size_of(number),
    {
        match number {
            0 => Some(MemorySize::MB256),
            1 => Some(MemorySize::MB512),
            2 => Some(MemorySize::MB1024),
            _ => None,
        }
    }

    /// "256MB", "512MB" or "1024MB".
    pub fn name(&self) -> (r: &'static str)
        ensures
            *self == MemorySize::MB256 ==> r@ == "256MB"@,
            *self == MemorySize::MB512 ==> r@ == "512MB"@,
            *self == MemorySize::MB1024 ==> r@ == "1024MB"@,
    {
        match self {
            MemorySize::MB256 => "256MB",
            MemorySize::MB512 => "512MB",
            MemorySize::MB1024 => "1024MB",
        }
    }
}

/// Manufacturer of the board.
#[derive(PartialEq, Eq, Structural, Clone, Copy, Debug)]
pub enum Manufacturer {
    SonyUK,
    Egoman,
    Embest,
    SonyJapan,
}

/// The manufacturer for a manufacturer field.
pub open spec fn manufacturer_of(number: u32) -> Option<Manufacturer> {
    if number == 0 {
        Some(Manufacturer::SonyUK)
    } else if number == 1 {
        Some(Manufacturer::Egoman)
    } else if number == 2 {
        Some(Manufacturer::Embest)
    } else if number == 3 {
        Some(Manufacturer::SonyJapan)
    } else {
        None
    }
}

impl Manufacturer {
    /// The manufacturer for a manufacturer field; `None` for an unknown one.
    pub fn from(number: u32) -> (r: Option<Manufacturer>)
        ensures
            r == manufacturer_of(number),
    {
        match number {
            0 => Some(Manufacturer::SonyUK),
            1 => Some(Manufacturer::Egoman),
            2 => Some(Manufacturer::Embest),
            3 => Some(Manufacturer::SonyJapan),
            _ => None,
        }
    }

    /// The manufacturer's name.
    pub fn name(&self) -> (r: &'static str)
        ensures
            *self == Manufacturer::SonyUK ==> r@ == "SonyUK"@,
            *self == Manufacturer::Egoman ==> r@ == "Egoman"@,
            *self == Manufacturer::Embest ==> r@ == "Embest"@,
            *self == Manufacturer::SonyJapan ==> r@ == "SonyJapan"@,
    {
        match self {
            Manufacturer::SonyUK => "SonyUK",
            Manufacturer::Egoman => "Egoman",
            Manufacturer::Embest => "Embest",
            Manufacturer::SonyJapan => "SonyJapan",
        }
    }
}

/// Processor of the board.
#[derive(PartialEq, Eq, Structural, Clone, Copy, Debug)]
pub enum Processor {
    BCM2835,
    BCM2836,
    BCM2837,
}

/// The processor for a processor field.
pub open spec fn processor_of(number: u32) -> Option<Processor> {
    if number == 0 {
        Some(Processor::BCM2835)
    } else if number == 1 {
        Some(Processor::BCM2836)
    } else if number == 2 {
        Some(Processor::BCM2837)
    } else {
        None
    }
}

impl Processor {
    /// The processor for a processor field; `None` for an unknown one.
    pub fn from(number: u32) -> (r: Option<Processor>)
        ensures
            r == processor_of(number),
    {
        match number {
            0 => Some(Processor::BCM2835),
            1 => Some(Processor::BCM2836),
            2 => Some(Processor::BCM2837),
            _ => None,
        }
    }

    /// The processor's name.
    pub fn name(&self) -> (r: &'static str)
        ensures
            *self == Processor::BCM2835 ==> r@ == "BCM2835"@,
            *self == Processor::BCM2836 ==> r@ == "BCM2836"@,
            *self == Processor::BCM2837 ==> r@ == "BCM2837"@,
    {
        match self {
            Processor::BCM2835 => "BCM2835",
            Processor::BCM2836 => "BCM2836",
            Processor::BCM2837 => "BCM2837",
        }
    }
}

/// Board model.
#[derive(PartialEq, Eq, Structural, Clone, Copy, Debug)]
pub enum Type {
    A,
    B,
    APlus,
    BPlus,
    B2,
    Alpha,
    CM1,
    B3,
    Zero,
    CM3,
    ZeroW,
}

/// The board model for a type field.
pub open spec fn type_of(number: u32) -> Option<Type> {
    if number == 0 {
        Some(Type::A)
    } else if number == 1 {
        Some(Type::B)
    } else if number == 2 {
        Some(Type::APlus)
    } else if number == 3 {
        Some(Type::BPlus)
    } else if number == 4 {
        Some(Type::B2)
    } else if number == 5 {
        Some(Type::Alpha)
    } else if number == 6 {
        Some(Type::CM1)
    } else if number == 8 {
        Some(Type::B3)
    } else if number == 9 {
        Some(Type::Zero)
    } else if number == 10 {
        Some(Type::CM3)
    } else if number == 12 {
        Some(Type::ZeroW)
    } else {
        None
    }
}

impl Type {
    /// The board model for a type field; `None` for an unknown one.
    pub fn from(number: u32) -> (r: Option<Type>)
        ensures
            r == type_of(number),
    {
        match number {
            0 => Some(Type::A),
            1 => Some(Type::B),
            2 => Some(Type::APlus),
            3 => Some(Type::BPlus),
            4 => Some(Type::B2),
            5 => Some(Type::Alpha),
            6 => Some(Type::CM1),
            8 => Some(Type::B3),
            9 => Some(Type::Zero),
            10 => Some(Type::CM3),
            12 => Some(Type::ZeroW),
            _ => None,
        }
    }

    /// The model's name.
    pub fn name(&self) -> (r: &'static str)
        ensures
            *self == Type::A ==> r@ == "A"@,
            *self == Type::B ==> r@ == "B"@,
            *self == Type::APlus ==> r@ == "APlus"@,
            *self == Type::BPlus ==> r@ == "BPlus"@,
            *self == Type::B2 ==> r@ == "B2"@,
            *self == Type::Alpha ==> r@ == "Alpha"@,
            *self == Type::CM1 ==> r@ == "CM1"@,
            *self == Type::B3 ==> r@ == "B3"@,
            *self == Type::Zero ==> r@ == "Zero"@,
            *self == Type::CM3 ==> r@ == "CM3"@,
            *self == Type::ZeroW ==> r@ == "ZeroW"@,
    {
        match self {
            Type::A => "A",
            Type::B => "B",
            Type::APlus => "APlus",
            Type::BPlus => "BPlus",
            Type::B2 => "B2",
            Type::Alpha => "Alpha",
            Type::CM1 => "CM1",
            Type::B3 => "B3",
            Type::Zero => "Zero",
            Type::CM3 => "CM3",
            Type::ZeroW => "ZeroW",
        }
    }
}

/// Why no board description could be had from the system information text.
#[derive(PartialEq, Eq, Structural, Clone, Copy, Debug)]
pub enum RevisionError {
    /// No "Revision" line with a hexadecimal code that fits in 32 bits.
    NoRevisionCode,
    /// The code uses the old scheme, which is not decoded.
    OldRevisionStyle,
    /// A field of the code holds a value with no known meaning.
    UnknownField,
}

/// Memory size, manufacturer, processor, board model and board revision.
pub type BoardInfo = (MemorySize, Manufacturer, Processor, Type, u32);

/// The board description that a revision code of the new scheme encodes: bit 23
/// marks the scheme, bits 20..23 the memory size, 16..20 the manufacturer, 12..16
/// the processor, 4..12 the model and 0..4 the revision.
pub open spec fn decode_revision_spec(code: u32) -> Result<BoardInfo, RevisionError> {
    if revision_style_of((code >> 23u32) & 1u32) == Some(RevisionStyle::Old) {
        Err(RevisionError::OldRevisionStyle)
    } else if memory_size_of((code >> 20u32) & 7u32) is None
        || manufacturer_of((code >> 16u32) & 15u32) is None
        || processor_of((code >> 12u32) & 15u32) is None
        || type_of((code >> 4u32) & 255u32) is None {
        Err(RevisionError::UnknownField)
    } else {
        Ok((
            memory_size_of((code >> 20u32) & 7u32)->Some_0,
            manufacturer_of((code >> 16u32) & 15u32)->Some_0,
            processor_of((code >> 12u32) & 15u32)->Some_0,
            type_of((code >> 4u32) & 255u32)->Some_0,
            code & 15u32,
        ))
    }
}

/// Decodes a revision code into the board description.
pub fn decode_revision(code: u32) -> (r: Result<BoardInfo, RevisionError>)
    ensures
        r == decode_revision_spec(code),
{
    if RevisionStyle::from((code >> 23u32) & 1u32) == Some(RevisionStyle::Old) {
        return Err(RevisionError::OldRevisionStyle);
    }
    let memory = MemorySize::from((code >> 20u32) & 7u32);
    let manufacturer = Manufacturer::from((code >> 16u32) & 15u32);
    let processor = Processor::from((code >> 12u32) & 15u32);
    let model = Type::from((code >> 4u32) & 255u32);
    match (memory, manufacturer, processor, model) {
        (Some(m), Some(f), Some(p), Some(t)) => Ok((m, f, p, t, code & 15u32)),
        _ => Err(RevisionError::UnknownField),
    }
}

/// The bytes of the label "Revision".
pub open spec fn revision_label() -> Seq<u8> {
    seq![0x52u8, 0x65u8, 0x76u8, 0x69u8, 0x73u8, 0x69u8, 0x6fu8, 0x6eu8]
}

/// The label starts at index `i` of `t`.
pub open spec fn label_at(t: Seq<u8>, i: int) -> bool {
    0 <= i && i + 8 <= t.len() && t.subrange(i, i + 8) == revision_label()
}

/// The last index below `end` where the label starts.
pub open spec fn last_label_below(t: Seq<u8>, end: int) -> Option<int>
    decreases end,
{
    if end <= 0 {
        None
    } else if label_at(t, end - 1) {
        Some(end - 1)
    } else {
        last_label_below(t, end - 1)
    }
}

/// ASCII white space: space, tab, line feed, vertical tab, form feed, carriage return.
pub open spec fn is_space(b: u8) -> bool {
    b == 0x20u8 || (0x09u8 <= b && b <= 0x0du8)
}

/// The first index from `i` on that holds no white space (or the end).
pub open spec fn skip_spaces(t: Seq<u8>, i: int) -> int
    decreases t.len() - i,
{
    if 0 <= i < t.len() && is_space(t[i]) {
        skip_spaces(t, i + 1)
    } else {
        i
    }
}

/// The first index from `i` on that holds white space (or the end).
pub open spec fn word_end(t: Seq<u8>, i: int) -> int
    decreases t.len() - i,
{
    if 0 <= i < t.len() && !is_space(t[i]) {
        word_end(t, i + 1)
    } else {
        i
    }
}

/// The value of a hexadecimal digit, either case.
pub open spec fn hex_digit(b: u8) -> Option<nat> {
    if 0x30u8 <= b && b <= 0x39u8 {
        Some((b - 0x30u8) as nat)
    } else if 0x61u8 <= b && b <= 0x66u8 {
        Some((b - 0x61u8 + 10) as nat)
    } else if 0x41u8 <= b && b <= 0x46u8 {
        Some((b - 0x41u8 + 10) as nat)
    } else {
        None
    }
}

/// Every byte is a hexadecimal digit.
pub open spec fn all_hex(s: Seq<u8>) -> bool {
    forall|i: int| 0 <= i < s.len() ==> (#[trigger] hex_digit(s[i])) is Some
}

/// The number that hexadecimal digits write, most significant first.
pub open spec fn hex_value(s: Seq<u8>) -> nat
    decreases s.len(),
{
    if s.len() == 0 {
        0
    } else {
        hex_value(s.drop_last()) * 16 + hex_digit(s.last())->Some_0
    }
}

/// A hexadecimal number with an optional leading '+', when it fits in 32 bits.
pub open spec fn parse_hex_spec(s: Seq<u8>) -> Option<u32> {
    let d = if s.len() > 0 && s[0] == 0x2bu8 { s.drop_first() } else { s };
    if d.len() > 0 && all_hex(d) && hex_value(d) <= u32::MAX {
        Some(hex_value(d) as u32)
    } else {
        None
    }
}

/// The revision code of a system information text: the third white-space
/// separated word from the last occurrence of "Revision" on ("Revision", ":",
/// code), read as hexadecimal.
pub open spec fn revision_code_spec(t: Seq<u8>) -> Option<u32> {
    match last_label_below(t, t.len() as int) {
        None => None,
        Some(p) => {
            let e0 = word_end(t, skip_spaces(t, p));
            let e1 = word_end(t, skip_spaces(t, e0));
            let s2 = skip_spaces(t, e1);
            let e2 = word_end(t, s2);
            if s2 < e2 {
                parse_hex_spec(t.subrange(s2, e2))
            } else {
                None
            }
        },
    }
}

/// The board description of a system information text.
pub open spec fn board_info_spec(t: Seq<u8>) -> Result<BoardInfo, RevisionError> {
    match revision_code_spec(t) {
        None => Err(RevisionError::NoRevisionCode),
        Some(code) => decode_revision_spec(code),
    }
}

proof fn lemma_hex_prefix_le(s: Seq<u8>, i: int)
    requires
        all_hex(s),
        0 <= i <= s.len(),
    ensures
        hex_value(s.take(i)) <= hex_value(s),
    decreases s.len(),
{
    if i < s.len() {
        let d = s.drop_last();
        assert(all_hex(d)) by {
            assert forall|j: int| 0 <= j < d.len() implies (#[trigger] hex_digit(d[j])) is Some by {
                assert(d[j] == s[j]);
            }
        }
        lemma_hex_prefix_le(d, i);
        assert(d.take(i) =~= s.take(i));
    } else {
        assert(s.take(i) =~= s);
    }
}

fn hex_digit_of(b: u8) -> (r: Option<u32>)
    ensures
        r is Some <==> hex_digit(b) is Some,
        r is Some ==> r->Some_0 == hex_digit(b)->Some_0 && r->Some_0 < 16,
{
    if 0x30u8 <= b && b <= 0x39u8 {
        Some((b - 0x30u8) as u32)
    } else if 0x61u8 <= b && b <= 0x66u8 {
        Some((b - 0x61u8 + 10) as u32)
    } else if 0x41u8 <= b && b <= 0x46u8 {
        Some((b - 0x41u8 + 10) as u32)
    } else {
        None
    }
}

/// Reads `t[start..end]` as a hexadecimal number with an optional leading '+'.
pub fn parse_hex(t: &[u8], start: usize, end: usize) -> (r: Option<u32>)
    requires
        start <= end <= t@.len(),
    ensures
        r == parse_hex_spec(t@.subrange(start as int, end as int)),
{
    let ghost s = t@.subrange(start as int, end as int);
    let ds: usize = if start < end && t[start] == 0x2bu8 { start + 1 } else { start };
    let ghost d = t@.subrange(ds as int, end as int);
    assert(d =~= (if s.len() > 0 && s[0] == 0x2bu8 { s.drop_first() } else { s }));
    assert(parse_hex_spec(s) == (if d.len() > 0 && all_hex(d) && hex_value(d) <= u32::MAX {
        Some(hex_value(d) as u32)
    } else {
        None::<u32>
    }));
    if ds == end {
        return None;
    }
    let mut acc: u32 = 0;
    let mut i: usize = ds;
    while i < end
        invariant
            ds <= i <= end <= t@.len(),
            d == t@.subrange(ds as int, end as int),
            parse_hex_spec(t@.subrange(start as int, end as int)) == (if d.len() > 0 && all_hex(d)
                && hex_value(d) <= u32::MAX {
                Some(hex_value(d) as u32)
            } else {
                None::<u32>
            }),
            all_hex(t@.subrange(ds as int, i as int)),
            acc as nat == hex_value(t@.subrange(ds as int, i as int)),
        decreases end - i,
    {
        let ghost prev = t@.subrange(ds as int, i as int);
        let ghost next = t@.subrange(ds as int, i + 1);
        assert(next.drop_last() =~= prev);
        assert(next.last() == t@[i as int]);
        match hex_digit_of(t[i]) {
            None => {
                assert(d[i - ds] == t@[i as int]);
                assert(hex_digit(d[i - ds]) is None);
                assert(!all_hex(d));
                return None;
            },
            Some(v) => {
                assert(all_hex(next)) by {
                    assert forall|j: int| 0 <= j < next.len() implies (#[trigger] hex_digit(next[j])) is Some by {
                        if j < prev.len() {
                            assert(next[j] == prev[j]);
                        }
                    }
                }
                if acc > 0x0fff_ffffu32 {
                    proof {
                        assert(hex_value(next) == hex_value(prev) * 16 + v);
                        if all_hex(d) {
                            lemma_hex_prefix_le(d, i + 1 - ds);
                            assert(d.take(i + 1 - ds) =~= next);
                            assert(hex_value(d) > u32::MAX);
                        }
                    }
                    return None;
                }
                acc = acc * 16 + v;
                i = i + 1;
            },
        }
    }
    assert(t@.subrange(ds as int, i as int) =~= d);
    Some(acc)
}

fn is_space_byte(b: u8) -> (r: bool)
    ensures
        r == is_space(b),
{
    b == 0x20u8 || (0x09u8 <= b && b <= 0x0du8)
}

fn label_starts_at(t: &[u8], i: usize) -> (r: bool)
    ensures
        r == label_at(t@, i as int),
{
    if i > t.len() || t.len() - i < 8 {
        return false;
    }
    let found = t[i] == 0x52u8 && t[i + 1] == 0x65u8 && t[i + 2] == 0x76u8 && t[i + 3] == 0x69u8
        && t[i + 4] == 0x73u8 && t[i + 5] == 0x69u8 && t[i + 6] == 0x6fu8 && t[i + 7] == 0x6eu8;
    let ghost sub = t@.subrange(i as int, i + 8);
    proof {
        if found {
            assert(sub =~= revision_label());
        } else if sub == revision_label() {
            assert(sub[0] == t@[i as int] && sub[1] == t@[i + 1] && sub[2] == t@[i + 2] && sub[3]
                == t@[i + 3]);
            assert(sub[4] == t@[i + 4] && sub[5] == t@[i + 5] && sub[6] == t@[i + 6] && sub[7]
                == t@[i + 7]);
        }
    }
    found
}

fn find_last_label(t: &[u8]) -> (r: Option<usize>)
    ensures
        r is None <==> last_label_below(t@, t@.len() as int) is None,
        r is Some ==> last_label_below(t@, t@.len() as int) == Some(r->Some_0 as int),
        r is Some ==> r->Some_0 < t@.len(),
{
    let mut end: usize = t.len();
    while end > 0
        invariant
            end <= t@.len(),
            last_label_below(t@, t@.len() as int) == last_label_below(t@, end as int),
        decreases end,
    {
        let i = end - 1;
        if label_starts_at(t, i) {
            return Some(i);
        }
        end = i;
    }
    None
}

fn skip_spaces_from(t: &[u8], i: usize) -> (r: usize)
    requires
        i <= t@.len(),
    ensures
        r == skip_spaces(t@, i as int),
        i <= r <= t@.len(),
{
    let mut j: usize = i;
    while j < t.len() && is_space_byte(t[j])
        invariant
            i <= j <= t@.len(),
            skip_spaces(t@, i as int) == skip_spaces(t@, j as int),
        decreases t@.len() - j,
    {
        j = j + 1;
    }
    j
}

fn word_end_from(t: &[u8], i: usize) -> (r: usize)
    requires
        i <= t@.len(),
    ensures
        r == word_end(t@, i as int),
        i <= r <= t@.len(),
{
    let mut j: usize = i;
    while j < t.len() && !is_space_byte(t[j])
        invariant
            i <= j <= t@.len(),
            word_end(t@, i as int) == word_end(t@, j as int),
        decreases t@.len() - j,
    {
        j = j + 1;
    }
    j
}

/// The revision code in a system information text such as /proc/cpuinfo.
pub fn revision_code(text: &[u8]) -> (r: Option<u32>)
    ensures
        r == revision_code_spec(text@),
{
    match find_last_label(text) {
        None => None,
        Some(p) => {
            let e0 = word_end_from(text, skip_spaces_from(text, p));
            let e1 = word_end_from(text, skip_spaces_from(text, e0));
            let s2 = skip_spaces_from(text, e1);
            let e2 = word_end_from(text, s2);
            if s2 < e2 {
                parse_hex(text, s2, e2)
            } else {
                None
            }
        },
    }
}

/// The board description of a system information text such as /proc/cpuinfo:
/// its revision code, decoded.
pub fn board_info(text: &[u8]) -> (r: Result<BoardInfo, RevisionError>)
    ensures
        r == board_info_spec(text@),
{
    match revision_code(text) {
        None => Err(RevisionError::NoRevisionCode),
        Some(code) => decode_revision(code),
    }
}

} // verus!
