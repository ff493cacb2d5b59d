//! The naming of persisted files: key files carry the variant's canonical
//! name, the key's role, the date and, where that name is taken, a sequence
//! number; a ciphertext is named after the file it was made for.

use vstd::prelude::*;
use vstd::string::*;
use crate::registry::{
    canonical_name, is_longest_match, lemma_resolved, resolved, scheme_of, Scheme, Variant,
};
use crate::text::{
    all_digits, chars_of, decimal, digit_char, digit_value, is_digit, lemma_concat_cancel,
    lemma_decimal_digits, lemma_decimal_round_trip, occurs_at, occurs_in,
};

verus! {

/// The half of a keypair that a file holds.
#[derive(Clone, Copy, Debug, PartialEq, Eq, Structural)]
pub enum KeyRole {
    Public,
    Secret,
}

/// A calendar date as file names carry it: two digits of day, two of month,
/// four of year.
#[derive(Clone, Copy, Debug, PartialEq, Eq, Structural)]
pub struct DateStamp {
    pub day: u8,
    pub month: u8,
    pub year: u16,
}

/// The word that stands for a role in a file name.
pub open spec fn role_word(role: KeyRole) -> Seq<char> {
    match role {
        KeyRole::Public => "public"@,
        KeyRole::Secret => "secret"@,
    }
}

/// The eight digits of a date: day, month, year.
pub open spec fn stamp_text(date: DateStamp) -> Seq<char> {
    seq![
        digit_char(date.day as int / 10 % 10),
        digit_char(date.day as int % 10),
        digit_char(date.month as int / 10 % 10),
        digit_char(date.month as int % 10),
        digit_char(date.year as int / 1000 % 10),
        digit_char(date.year as int / 100 % 10),
        digit_char(date.year as int / 10 % 10),
        digit_char(date.year as int % 10),
    ]
}

/// Whether the numbers are a day, a month and a year of four digits.
pub open spec fn is_date(day: int, month: int, year: int) -> bool {
    &&& 1 <= day <= 31
    &&& 1 <= month <= 12
    &&& 0 <= year <= 9999
}

/// The date that eight digits spell, if they spell one.
pub open spec fn parsed_stamp(s: Seq<char>) -> Option<DateStamp> {
    if s.len() == 8 && all_digits(s) {
        let day = 10 * digit_value(s[0]) + digit_value(s[1]);
        let month = 10 * digit_value(s[2]) + digit_value(s[3]);
        let year = 1000 * digit_value(s[4]) + 100 * digit_value(s[5]) + 10 * digit_value(s[6])
            + digit_value(s[7]);
        if is_date(day, month, year) {
            Some(DateStamp { day: day as u8, month: month as u8, year: year as u16 })
        } else {
            None
        }
    } else {
        None
    }
}

/// The date that a day, a month and a year of a calendar make, if they are
/// in range.
pub open spec fn date_of_calendar(day: int, month: int, year: int) -> Option<DateStamp> {
    if is_date(day, month, year) {
        Some(DateStamp { day: day as u8, month: month as u8, year: year as u16 })
    } else {
        None
    }
}

/// The date at the moment `seconds` after the start of 1970, seen `offset`
/// seconds ahead of universal time, if the calendar has one there with a
/// year of four digits.
pub open spec fn date_at(seconds: int, offset: int) -> Option<DateStamp> {
    if 0 <= seconds <= i64::MAX {
        match calendar_date(seconds, offset) {
            Some((day, month, year)) => date_of_calendar(day as int, month as int, year as int),
            None => None,
        }
    } else {
        None
    }
}

/// Whether `today` can be what a reading of the clock gives `offset` seconds
/// ahead of universal time: no date, or the date at some moment.
pub open spec fn could_be_today(today: Option<DateStamp>, offset: int) -> bool {
    today is None || exists|seconds: int| today == #[trigger] date_at(seconds, offset)
}

/// What sets apart the files of later runs: nothing for the first, an
/// underscore and the sequence number for the others.
pub open spec fn sequence_suffix(seq: nat) -> Seq<char> {
    if seq == 0 {
        Seq::<char>::empty()
    } else {
        "_"@ + decimal(seq)
    }
}

/// The name of a key file.
pub open spec fn file_name(v: Variant, role: KeyRole, date: DateStamp, seq: nat) -> Seq<char> {
    canonical_name(v) + "_"@ + role_word(role) + "_key_"@ + stamp_text(date) + sequence_suffix(seq)
        + ".bin"@
}

/// The path of a key file in a folder.
pub open spec fn key_path(
    folder: Seq<char>,
    v: Variant,
    role: KeyRole,
    date: DateStamp,
    seq: nat,
) -> Seq<char> {
    folder + "/"@ + file_name(v, role, date, seq)
}

/// The path of the ciphertext made for a target file.
pub open spec fn ciphertext_path(target: Seq<char>) -> Seq<char> {
    target + ".enc"@
}

/// Whether `c` is the first letter of a canonical name.
pub open spec fn is_initial(c: char) -> bool {
    c == 'D' || c == 'F' || c == 'M' || c == 'K' || c == 'H' || c == 'B'
}

/// Whether `c` can stand inside a canonical name, after its first letter.
pub open spec fn is_inner(c: char) -> bool {
    ('a' <= c <= 'z') || is_digit(c) || c == 'L'
}

/// Whether no character of `s` is the first letter of a canonical name.
pub open spec fn initial_free(s: Seq<char>) -> bool {
    forall|i: int| 0 <= i < s.len() ==> !is_initial(#[trigger] s[i])
}

/// The first letter of the canonical names of a scheme.
pub open spec fn initial_of(s: Scheme) -> char {
    match s {
        Scheme::Dilithium => 'D',
        Scheme::Falcon => 'F',
        Scheme::Mayo => 'M',
        Scheme::Kyber => 'K',
        Scheme::Hqc => 'H',
        Scheme::Bike => 'B',
    }
}

/// The place in the canonical names of a scheme of the character that tells
/// its variants apart.
pub open spec fn mark_index(s: Scheme) -> int {
    match s {
        Scheme::Dilithium => 9,
        Scheme::Falcon => 6,
        Scheme::Mayo => 4,
        Scheme::Kyber => 5,
        Scheme::Hqc => 4,
        Scheme::Bike => 5,
    }
}

/// The character that tells a variant from the others of its scheme.
pub open spec fn mark_of(v: Variant) -> char {
    match v {
        Variant::Falcon1024 | Variant::Mayo1 | Variant::Kyber1024 | Variant::BikeL1 => '1',
        Variant::Dilithium2 | Variant::Mayo2 | Variant::Hqc128 => '2',
        Variant::Dilithium3 | Variant::Mayo3 | Variant::BikeL3 => '3',
        Variant::Dilithium5
        | Variant::Falcon512
        | Variant::Mayo5
        | Variant::Kyber512
        | Variant::Hqc256
        | Variant::BikeL5 => '5',
        Variant::Kyber768 => '7',
        Variant::Hqc192 => '9',
    }
}

/// A canonical name starts with the capital of its scheme, which no later
/// character of any name repeats, goes on with small letters, digits and
/// `L`, and holds the variant's mark at the place that its scheme gives.
pub proof fn lemma_name_shape(v: Variant)
    ensures
        5 <= canonical_name(v).len() <= 10,
        canonical_name(v)[0] == initial_of(scheme_of(v)),
        is_initial(canonical_name(v)[0]),
        forall|i: int| 1 <= i < canonical_name(v).len() ==> is_inner(#[trigger] canonical_name(v)[i]),
        0 < mark_index(scheme_of(v)) < canonical_name(v).len(),
        canonical_name(v)[mark_index(scheme_of(v))] == mark_of(v),
{
    reveal_strlit("Dilithium2");
    reveal_strlit("Dilithium3");
    reveal_strlit("Dilithium5");
    reveal_strlit("Falcon512");
    reveal_strlit("Falcon1024");
    reveal_strlit("Mayo1");
    reveal_strlit("Mayo2");
    reveal_strlit("Mayo3");
    reveal_strlit("Mayo5");
    reveal_strlit("Kyber512");
    reveal_strlit("Kyber768");
    reveal_strlit("Kyber1024");
    reveal_strlit("Hqc128");
    reveal_strlit("Hqc192");
    reveal_strlit("Hqc256");
    reveal_strlit("BikeL1");
    reveal_strlit("BikeL3");
    reveal_strlit("BikeL5");
}

/// Two variants whose names start with one letter are of one scheme; if the
/// names also agree in the scheme's marking character, they are one variant.
pub proof fn lemma_names_apart(v: Variant, w: Variant)
    requires
        canonical_name(v)[0] == canonical_name(w)[0],
    ensures
        scheme_of(v) == scheme_of(w),
        canonical_name(v)[mark_index(scheme_of(v))] == canonical_name(w)[mark_index(scheme_of(v))]
            ==> v == w,
{
    lemma_name_shape(v);
    lemma_name_shape(w);
}

/// Joining two sequences that hold no first letter of a canonical name
/// gives one that holds none.
pub proof fn lemma_initial_free_join(a: Seq<char>, b: Seq<char>)
    requires
        initial_free(a),
        initial_free(b),
    ensures
        initial_free(a + b),
{
    assert forall|i: int| 0 <= i < (a + b).len() implies !is_initial(#[trigger] (a + b)[i]) by {
        if i < a.len() {
            assert((a + b)[i] == a[i]);
        } else {
            assert((a + b)[i] == b[i - a.len()]);
        }
    }
}

/// What follows the canonical name in a file name holds no first letter of a
/// canonical name, and starts with an underscore.
pub proof fn lemma_name_tail(role: KeyRole, date: DateStamp, seq: nat)
    ensures
        initial_free(
            "_"@ + role_word(role) + "_key_"@ + stamp_text(date) + sequence_suffix(seq) + ".bin"@,
        ),
        ("_"@ + role_word(role) + "_key_"@ + stamp_text(date) + sequence_suffix(seq) + ".bin"@)[0]
            == '_',
{
    assert(initial_free("_"@) && "_"@.len() == 1 && "_"@[0] == '_') by {
        reveal_strlit("_");
    }
    assert(initial_free(role_word(role))) by {
        reveal_strlit("public");
        reveal_strlit("secret");
    }
    assert(initial_free("_key_"@)) by {
        reveal_strlit("_key_");
    }
    assert(initial_free(".bin"@)) by {
        reveal_strlit(".bin");
    }
    assert(initial_free(stamp_text(date)));
    assert(initial_free(sequence_suffix(seq))) by {
        lemma_decimal_digits(seq);
        if seq != 0 {
            assert(initial_free(decimal(seq)));
            lemma_initial_free_join("_"@, decimal(seq));
        }
    }
    let a = "_"@ + role_word(role);
    lemma_initial_free_join("_"@, role_word(role));
    let b = a + "_key_"@;
    lemma_initial_free_join(a, "_key_"@);
    let c = b + stamp_text(date);
    lemma_initial_free_join(b, stamp_text(date));
    let d = c + sequence_suffix(seq);
    lemma_initial_free_join(c, sequence_suffix(seq));
    lemma_initial_free_join(d, ".bin"@);
    assert((d + ".bin"@)[0] == "_"@[0]);
}

/// The canonical name of `w` occurs in a key file's name exactly when the
/// file is a key of `w`: no name of another variant can be read out of it.
pub proof fn lemma_file_name_names_one(v: Variant, w: Variant, role: KeyRole, date: DateStamp, seq: nat)
    ensures
        occurs_in(file_name(v, role, date, seq), canonical_name(w)) <==> w == v,
{
    let name = canonical_name(v);
    let tail = "_"@ + role_word(role) + "_key_"@ + stamp_text(date) + sequence_suffix(seq)
        + ".bin"@;
    let f = file_name(v, role, date, seq);
    assert(f =~= name + tail);
    lemma_name_shape(v);
    lemma_name_shape(w);
    lemma_name_tail(role, date, seq);
    if w == v {
        assert(f.subrange(0, name.len() as int) =~= name);
        assert(occurs_at(f, name, 0));
    }
    if occurs_in(f, canonical_name(w)) {
        let other = canonical_name(w);
        let at = choose|at: int| occurs_at(f, other, at);
        let part = f.subrange(at, at + other.len());
        assert(part[0] == f[at]);
        if at >= name.len() {
            assert(f[at] == tail[at - name.len()]);
        }
        assert(at == 0);
        assert forall|i: int| 0 <= i < other.len() implies f[i] == #[trigger] other[i] by {
            assert(part[i] == f[i]);
        }
        if other.len() > name.len() {
            assert(f[name.len() as int] == tail[0]);
            assert(is_inner(other[name.len() as int]));
        } else {
            assert(f[0] == name[0]);
            assert(f[mark_index(scheme_of(v))] == name[mark_index(scheme_of(v))]);
            lemma_names_apart(v, w);
            assert(other[mark_index(scheme_of(v))] == name[mark_index(scheme_of(v))]);
        }
    }
}

/// No canonical name is a part of another.
pub proof fn lemma_names_not_nested(v: Variant, w: Variant)
    ensures
        occurs_in(canonical_name(v), canonical_name(w)) <==> w == v,
{
    let role = KeyRole::Public;
    let date = DateStamp { day: 1, month: 1, year: 0 };
    let f = file_name(v, role, date, 0);
    let name = canonical_name(v);
    let part = canonical_name(w);
    lemma_file_name_names_one(v, w, role, date, 0);
    if occurs_in(name, part) {
        let at = choose|at: int| occurs_at(name, part, at);
        assert(f.subrange(at, at + part.len()) =~= name.subrange(at, at + part.len()));
        assert(occurs_at(f, part, at));
    }
    if w == v {
        assert(name.subrange(0, name.len() as int) =~= name);
        assert(occurs_at(name, name, 0));
    }
}

/// Resolving the name of a key file gives back the variant it was built
/// for, whatever the role, the date and the sequence number.
pub proof fn lemma_file_name_resolves(v: Variant, role: KeyRole, date: DateStamp, seq: nat)
    ensures
        resolved(file_name(v, role, date, seq)) == Some(v),
{
    let f = file_name(v, role, date, seq);
    lemma_file_name_names_one(v, v, role, date, seq);
    assert forall|w: Variant| w != v && occurs_in(f, #[trigger] canonical_name(w)) implies false by {
        lemma_file_name_names_one(v, w, role, date, seq);
    }
    assert(is_longest_match(f, v));
    lemma_resolved(f, v);
}

/// The canonical name of `w` occurs in the path of a key file exactly when
/// it occurs in the folder's path or the file is a key of `w`: no name
/// straddles the separator.
pub proof fn lemma_key_path_names(
    folder: Seq<char>,
    v: Variant,
    w: Variant,
    role: KeyRole,
    date: DateStamp,
    seq: nat,
)
    ensures
        occurs_in(key_path(folder, v, role, date, seq), canonical_name(w)) <==> (occurs_in(
            folder,
            canonical_name(w),
        ) || w == v),
{
    reveal_strlit("/");
    let f = file_name(v, role, date, seq);
    let path = key_path(folder, v, role, date, seq);
    let name = canonical_name(w);
    let split = folder.len() as int;
    lemma_name_shape(w);
    lemma_file_name_names_one(v, w, role, date, seq);
    assert(path.len() == split + 1 + f.len());
    assert(path[split] == '/');
    if occurs_in(path, name) {
        let at = choose|at: int| occurs_at(path, name, at);
        let part = path.subrange(at, at + name.len());
        if at + name.len() <= split {
            assert(folder.subrange(at, at + name.len()) =~= part);
            assert(occurs_at(folder, name, at));
        } else if at > split {
            assert(f.subrange(at - split - 1, at - split - 1 + name.len()) =~= part);
            assert(occurs_at(f, name, at - split - 1));
        } else {
            assert(part[split - at] == path[split]);
            assert(is_initial(name[0]));
        }
    }
    if occurs_in(folder, name) {
        let at = choose|at: int| occurs_at(folder, name, at);
        assert(path.subrange(at, at + name.len()) =~= folder.subrange(at, at + name.len()));
        assert(occurs_at(path, name, at));
    }
    if w == v {
        let at = choose|at: int| occurs_at(f, name, at);
        assert(path.subrange(at + split + 1, at + split + 1 + name.len()) =~= f.subrange(
            at,
            at + name.len(),
        ));
        assert(occurs_at(path, name, at + split + 1));
    }
}

/// Resolving the path of a key file gives back the variant it was built
/// for, wherever the folder's own path names no variant.
pub proof fn lemma_key_path_resolves(
    folder: Seq<char>,
    v: Variant,
    role: KeyRole,
    date: DateStamp,
    seq: nat,
)
    requires
        forall|w: Variant| !occurs_in(folder, #[trigger] canonical_name(w)),
    ensures
        resolved(key_path(folder, v, role, date, seq)) == Some(v),
{
    let path = key_path(folder, v, role, date, seq);
    lemma_key_path_names(folder, v, v, role, date, seq);
    assert forall|w: Variant| w != v && occurs_in(path, #[trigger] canonical_name(w)) implies false by {
        lemma_key_path_names(folder, v, w, role, date, seq);
    }
    assert(is_longest_match(path, v));
    lemma_resolved(path, v);
}

/// Two key files have one name only if they hold the same half of a key of
/// the same variant, made on the same date under the same sequence number:
/// every sequence number gives a name of its own.
pub proof fn lemma_file_names_apart(
    v1: Variant,
    role1: KeyRole,
    date1: DateStamp,
    seq1: nat,
    v2: Variant,
    role2: KeyRole,
    date2: DateStamp,
    seq2: nat,
)
    requires
        date1.wf(),
        date2.wf(),
        file_name(v1, role1, date1, seq1) == file_name(v2, role2, date2, seq2),
    ensures
        v1 == v2,
        role1 == role2,
        date1 == date2,
        seq1 == seq2,
{
    reveal_strlit("_");
    reveal_strlit("public");
    reveal_strlit("secret");
    reveal_strlit("_key_");
    reveal_strlit(".bin");
    lemma_file_name_names_one(v1, v1, role1, date1, seq1);
    lemma_file_name_names_one(v2, v1, role2, date2, seq2);
    let head = canonical_name(v1) + "_"@;
    let end1 = sequence_suffix(seq1) + ".bin"@;
    let end2 = sequence_suffix(seq2) + ".bin"@;
    let stamped1 = stamp_text(date1) + end1;
    let stamped2 = stamp_text(date2) + end2;
    let rest1 = role_word(role1) + "_key_"@ + stamped1;
    let rest2 = role_word(role2) + "_key_"@ + stamped2;
    assert(file_name(v1, role1, date1, seq1) =~= head + rest1);
    assert(file_name(v2, role2, date2, seq2) =~= head + rest2);
    lemma_concat_cancel(head, rest1, rest2);
    assert(rest1[0] == role_word(role1)[0]);
    assert(rest2[0] == role_word(role2)[0]);
    assert(role1 == role2);
    lemma_concat_cancel(role_word(role1) + "_key_"@, stamped1, stamped2);
    assert(stamp_text(date1) =~= stamped1.subrange(0, 8));
    assert(stamp_text(date2) =~= stamped2.subrange(0, 8));
    lemma_stamp_round_trip(date1);
    lemma_stamp_round_trip(date2);
    lemma_concat_cancel(stamp_text(date1), end1, end2);
    lemma_concat_cancel(".bin"@, sequence_suffix(seq1), sequence_suffix(seq2));
    lemma_decimal_digits(seq1);
    lemma_decimal_digits(seq2);
    if seq1 != 0 && seq2 != 0 {
        lemma_concat_cancel("_"@, decimal(seq1), decimal(seq2));
        lemma_decimal_round_trip(seq1);
        lemma_decimal_round_trip(seq2);
    }
}

/// The two digits of a number below a hundred.
pub proof fn lemma_two_digits(n: int)
    requires
        0 <= n < 100,
    ensures
        0 <= n / 10 % 10 <= 9,
        0 <= n % 10 <= 9,
        10 * (n / 10 % 10) + n % 10 == n,
{
}

/// The four digits of a number below ten thousand.
pub proof fn lemma_four_digits(n: int)
    requires
        0 <= n < 10000,
    ensures
        0 <= n / 1000 % 10 <= 9,
        0 <= n / 100 % 10 <= 9,
        0 <= n / 10 % 10 <= 9,
        0 <= n % 10 <= 9,
        1000 * (n / 1000 % 10) + 100 * (n / 100 % 10) + 10 * (n / 10 % 10) + n % 10 == n,
{
    let tens = n / 10;
    let hundreds = tens / 10;
    let thousands = hundreds / 10;
    assert(hundreds == n / 100 && thousands == n / 1000) by {
        vstd::arithmetic::div_mod::lemma_div_denominator(n, 10, 10);
        vstd::arithmetic::div_mod::lemma_div_denominator(n, 100, 10);
    }
    assert(n == 10 * tens + n % 10 && 0 <= tens < 1000);
    assert(tens == 10 * hundreds + tens % 10 && 0 <= hundreds < 100);
    assert(hundreds == 10 * thousands + hundreds % 10 && 0 <= thousands < 10);
    assert(thousands % 10 == thousands);
}

/// Eight digits that spell a date are read as that date.
pub proof fn lemma_digits_spell_date(d: Seq<int>)
    requires
        d.len() == 8,
        forall|i: int| 0 <= i < 8 ==> 0 <= #[trigger] d[i] <= 9,
        is_date(
            10 * d[0] + d[1],
            10 * d[2] + d[3],
            1000 * d[4] + 100 * d[5] + 10 * d[6] + d[7],
        ),
    ensures
        parsed_stamp(
            seq![
                digit_char(d[0]),
                digit_char(d[1]),
                digit_char(d[2]),
                digit_char(d[3]),
                digit_char(d[4]),
                digit_char(d[5]),
                digit_char(d[6]),
                digit_char(d[7]),
            ],
        ) == Some(
            DateStamp {
                day: (10 * d[0] + d[1]) as u8,
                month: (10 * d[2] + d[3]) as u8,
                year: (1000 * d[4] + 100 * d[5] + 10 * d[6] + d[7]) as u16,
            },
        ),
{
    let s = seq![
        digit_char(d[0]),
        digit_char(d[1]),
        digit_char(d[2]),
        digit_char(d[3]),
        digit_char(d[4]),
        digit_char(d[5]),
        digit_char(d[6]),
        digit_char(d[7]),
    ];
    assert(s.len() == 8);
    assert forall|i: int| 0 <= i < 8 implies is_digit(#[trigger] s[i]) && digit_value(s[i])
        == d[i] by {
        lemma_digit_round_trip(d[i]);
        assert(s[i] == digit_char(d[i]));
    }
    assert(all_digits(s));
    assert(digit_value(s[0]) == d[0]);
    assert(digit_value(s[1]) == d[1]);
    assert(digit_value(s[2]) == d[2]);
    assert(digit_value(s[3]) == d[3]);
    assert(digit_value(s[4]) == d[4]);
    assert(digit_value(s[5]) == d[5]);
    assert(digit_value(s[6]) == d[6]);
    assert(digit_value(s[7]) == d[7]);
}

/// The digits of a date spell that date.
pub proof fn lemma_stamp_round_trip(date: DateStamp)
    requires
        date.wf(),
    ensures
        parsed_stamp(stamp_text(date)) == Some(date),
{
    let day = date.day as int;
    let month = date.month as int;
    let year = date.year as int;
    lemma_two_digits(day);
    lemma_two_digits(month);
    lemma_four_digits(year);
    let d = seq![
        day / 10 % 10,
        day % 10,
        month / 10 % 10,
        month % 10,
        year / 1000 % 10,
        year / 100 % 10,
        year / 10 % 10,
        year % 10,
    ];
    lemma_digits_spell_date(d);
    assert(stamp_text(date) =~= seq![
        digit_char(d[0]),
        digit_char(d[1]),
        digit_char(d[2]),
        digit_char(d[3]),
        digit_char(d[4]),
        digit_char(d[5]),
        digit_char(d[6]),
        digit_char(d[7]),
    ]);
}

/// A digit's character is a digit and has the digit's value.
pub proof fn lemma_digit_round_trip(d: int)
    requires
        0 <= d <= 9,
    ensures
        is_digit(digit_char(d)),
        digit_value(digit_char(d)) == d,
{
}

/// The clock of the machine: `std::time::SystemTime`. A value of it is only
/// carried from the call that reads the clock to the call that measures it.
#[verifier::external_type_specification]
#[verifier::external_body]
pub struct ExSystemTime(std::time::SystemTime);

/// Calls `std::time::SystemTime::now`. Nothing is claimed of the moment: it
/// is what the machine's clock says.
#[verifier::external_body]
fn clock_now() -> std::time::SystemTime {
    std::time::SystemTime::now()
}

/// Calls `std::time::SystemTime::duration_since` with the start of 1970 and
/// hands back the whole seconds, or nothing where the moment lies before
/// 1970. Nothing is claimed of the number.
#[verifier::external_body]
fn seconds_since_epoch(moment: &std::time::SystemTime) -> Option<u64> {
    match moment.duration_since(std::time::UNIX_EPOCH) {
        Ok(elapsed) => Some(elapsed.as_secs()),
        Err(_) => None,
    }
}

/// Day, month and year that chrono gives for the moment `seconds` after the
/// start of 1970, seen `offset` seconds ahead of universal time; nothing
/// where chrono has no such moment or takes no such offset.
pub uninterp spec fn calendar_date(seconds: int, offset: int) -> Option<(u32, u32, i32)>;

/// Calls `chrono::DateTime::with_timezone` on the moment that
/// `chrono::DateTime::from_timestamp` makes of `seconds` and the zone that
/// `chrono::FixedOffset::east_opt` makes of `offset`, and hands back day,
/// month and year of the result. The contract claims no more than that the
/// numbers are a function of the two arguments: chrono reads neither the
/// clock nor the machine's time zone here, and none of the calls panics.
#[verifier::external_body]
fn calendar_date_at(seconds: i64, offset: i32) -> (r: Option<(u32, u32, i32)>)
    ensures
        r == calendar_date(seconds as int, offset as int),
{
    match (chrono::DateTime::from_timestamp(seconds, 0), chrono::FixedOffset::east_opt(offset)) {
        (Some(moment), Some(zone)) => {
            let local = moment.with_timezone(&zone);
            Some(
                (
                    chrono::Datelike::day(&local),
                    chrono::Datelike::month(&local),
                    chrono::Datelike::year(&local),
                ),
            )
        },
        _ => None,
    }
}

/// The text of one decimal digit.
fn digit_text(d: u8) -> (s: &'static str)
    requires
        d < 10,
    ensures
        s@ == seq![digit_char(d as int)],
{
    proof {
        reveal_strlit("0");
        reveal_strlit("1");
        reveal_strlit("2");
        reveal_strlit("3");
        reveal_strlit("4");
        reveal_strlit("5");
        reveal_strlit("6");
        reveal_strlit("7");
        reveal_strlit("8");
        reveal_strlit("9");
    }
    let s: &'static str = match d {
        0 => "0",
        1 => "1",
        2 => "2",
        3 => "3",
        4 => "4",
        5 => "5",
        6 => "6",
        7 => "7",
        8 => "8",
        _ => "9",
    };
    assert(s@ =~= seq![digit_char(d as int)]);
    s
}

/// Writes `n` in decimal, without leading zeros.
pub fn decimal_text(n: u32) -> (s: String)
    ensures
        s@ == decimal(n as nat),
    decreases n,
{
    if n < 10 {
        String::from_str(digit_text(n as u8))
    } else {
        let mut s: String = decimal_text(n / 10);
        s.append(digit_text((n % 10) as u8));
        assert(s@ =~= decimal(n as nat));
        s
    }
}

impl KeyRole {
    /// The word that stands for this role in a file name.
    pub fn word(self) -> (s: &'static str)
        ensures
            s@ == role_word(self),
    {
        match self {
            KeyRole::Public => "public",
            KeyRole::Secret => "secret",
        }
    }
}

impl DateStamp {
    /// Whether the fields are a day, a month and a year of four digits.
    pub open spec fn wf(self) -> bool {
        is_date(self.day as int, self.month as int, self.year as int)
    }

    /// Makes a date of a day, a month and a year, if they are in range.
    pub fn new(day: u8, month: u8, year: u16) -> (r: Option<DateStamp>)
        ensures
            r == if is_date(day as int, month as int, year as int) {
                Some(DateStamp { day, month, year })
            } else {
                None
            },
    {
        if 1 <= day && day <= 31 && 1 <= month && month <= 12 && year <= 9999 {
            Some(DateStamp { day, month, year })
        } else {
            None
        }
    }

    /// Reads a date from its eight digits.
    pub fn parse(text: &str) -> (r: Option<DateStamp>)
        ensures
            r == parsed_stamp(text@),
            r matches Some(d) ==> d.wf(),
    {
        let cs: Vec<char> = chars_of(text);
        if cs.len() != 8 {
            return None;
        }
        let mut ds: Vec<u16> = Vec::new();
        let mut i: usize = 0;
        while i < 8
            invariant
                cs@ == text@,
                cs@.len() == 8,
                i <= 8,
                ds@.len() == i,
                forall|k: int| 0 <= k < i ==> is_digit(#[trigger] cs@[k]),
                forall|k: int| 0 <= k < i ==> #[trigger] ds@[k] == digit_value(cs@[k]),
            decreases 8 - i,
        {
            let c: char = cs[i];
            if !('0' <= c && c <= '9') {
                assert(!all_digits(text@));
                return None;
            }
            ds.push((c as u32 - '0' as u32) as u16);
            i = i + 1;
        }
        assert(all_digits(text@));
        let day: u16 = 10 * ds[0] + ds[1];
        let month: u16 = 10 * ds[2] + ds[3];
        let year: u16 = 1000 * ds[4] + 100 * ds[5] + 10 * ds[6] + ds[7];
        if 1 <= day && day <= 31 && 1 <= month && month <= 12 {
            Some(DateStamp { day: day as u8, month: month as u8, year })
        } else {
            None
        }
    }

    /// Makes a date of the day, month and year that a calendar gives, if
    /// they are in range.
    pub fn of_calendar(day: u32, month: u32, year: i32) -> (r: Option<DateStamp>)
        ensures
            r == date_of_calendar(day as int, month as int, year as int),
            r matches Some(d) ==> d.wf(),
    {
        if 1 <= day && day <= 31 && 1 <= month && month <= 12 && 0 <= year && year <= 9999 {
            Some(DateStamp { day: day as u8, month: month as u8, year: year as u16 })
        } else {
            None
        }
    }

    /// The date at `seconds` after the start of 1970, seen `offset` seconds
    /// ahead of universal time, if there is one and it has a year of four
    /// digits.
    pub fn at(seconds: u64, offset: i32) -> (r: Option<DateStamp>)
        ensures
            r == date_at(seconds as int, offset as int),
            r matches Some(d) ==> d.wf(),
    {
        if seconds > 0x7FFF_FFFF_FFFF_FFFF {
            return None;
        }
        match calendar_date_at(seconds as i64, offset) {
            Some((day, month, year)) => DateStamp::of_calendar(day, month, year),
            None => None,
        }
    }

    /// The date that the machine's clock shows `offset` seconds ahead of
    /// universal time, if the clock stands at 1970 or later and the date has
    /// a year of four digits.
    pub fn today(offset: i32) -> (r: Option<DateStamp>)
        ensures
            could_be_today(r, offset as int),
            r matches Some(d) ==> d.wf(),
    {
        let now = clock_now();
        match seconds_since_epoch(&now) {
            Some(seconds) => DateStamp::at(seconds, offset),
            None => None,
        }
    }

    /// The eight digits of this date.
    pub fn text(&self) -> (s: String)
        ensures
            s@ == stamp_text(*self),
    {
        let mut s: String = String::from_str(digit_text(self.day / 10 % 10));
        s.append(digit_text(self.day % 10));
        s.append(digit_text(self.month / 10 % 10));
        s.append(digit_text(self.month % 10));
        s.append(digit_text((self.year / 1000 % 10) as u8));
        s.append(digit_text((self.year / 100 % 10) as u8));
        s.append(digit_text((self.year / 10 % 10) as u8));
        s.append(digit_text((self.year % 10) as u8));
        assert(s@ =~= stamp_text(*self));
        s
    }
}

/// Builds the name of a key file. `seq` is zero for the plain name and
/// counts the names tried after it.
pub fn build_filename(variant: Variant, role: KeyRole, date: DateStamp, seq: u32) -> (s: String)
    ensures
        s@ == file_name(variant, role, date, seq as nat),
{
    let mut s: String = String::from_str(variant.name());
    s.append("_");
    s.append(role.word());
    s.append("_key_");
    s.append(date.text().as_str());
    if seq > 0 {
        let ghost before = s@;
        s.append("_");
        s.append(decimal_text(seq).as_str());
        assert(s@ =~= before + sequence_suffix(seq as nat));
    } else {
        assert(s@ =~= s@ + sequence_suffix(seq as nat));
    }
    s.append(".bin");
    s
}

/// Builds the path of a key file in `folder`.
pub fn build_key_path(folder: &str, variant: Variant, role: KeyRole, date: DateStamp, seq: u32) -> (s:
    String)
    ensures
        s@ == key_path(folder@, variant, role, date, seq as nat),
{
    let mut s: String = String::from_str(folder);
    s.append("/");
    s.append(build_filename(variant, role, date, seq).as_str());
    s
}

/// Builds the path of the ciphertext made for the file at `target`.
pub fn build_ciphertext_path(target: &str) -> (s: String)
    ensures
        s@ == ciphertext_path(target@),
{
    let mut s: String = String::from_str(target);
    s.append(".enc");
    s
}

} // verus!
