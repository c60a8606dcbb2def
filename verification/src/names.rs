//! The names under which the bot keeps its files.
//!
//! The record lives in one file. Each image lives in a file of its own in
//! the images directory, named by the decimal sequence id of the image and
//! the extension of the image format.

use vstd::prelude::*;
use vstd::string::StringExecFns;

verus! {

/// The file that holds the record.
pub const STATE_PATH: &'static str = "state";

/// The directory that holds the images.
pub const IMAGES_DIR: &'static str = "images";

/// The extension of an image file, with its dot.
pub const IMAGE_SUFFIX: &'static str = ".png";

/// The character that writes the digit `d`.
pub open spec fn digit_char(d: int) -> char
    recommends
        0 <= d < 10,
{
    if d == 0 {
        '0'
    } else if d == 1 {
        '1'
    } else if d == 2 {
        '2'
    } else if d == 3 {
        '3'
    } else if d == 4 {
        '4'
    } else if d == 5 {
        '5'
    } else if d == 6 {
        '6'
    } else if d == 7 {
        '7'
    } else if d == 8 {
        '8'
    } else {
        '9'
    }
}

/// The decimal numeral of `n`, without sign or leading zeros.
pub open spec fn decimal(n: nat) -> Seq<char>
    decreases n,
{
    if n < 10 {
        seq![digit_char(n as int)]
    } else {
        decimal(n / 10) + seq![digit_char((n % 10) as int)]
    }
}

/// The name of the file that holds image number `id`.
pub open spec fn image_name(id: u32) -> Seq<char> {
    decimal(id as nat) + IMAGE_SUFFIX@
}

fn digit_text(d: u32) -> (text: &'static str)
    requires
        d < 10,
    ensures
        text@ == seq![digit_char(d as int)],
{
    proof {
        reveal_strlit("0");
        reveal_strlit("1");
        reveal_strlit("2");
        reveal_strlit("3");
        reveal_strlit("4");
        reveal_strlit("5");
        reveal_strlit("6");
        reveal_strlit("7");
        reveal_strlit("8");
        reveal_strlit("9");
    }
    let text: &'static str = if d == 0 {
        "0"
    } else if d == 1 {
        "1"
    } else if d == 2 {
        "2"
    } else if d == 3 {
        "3"
    } else if d == 4 {
        "4"
    } else if d == 5 {
        "5"
    } else if d == 6 {
        "6"
    } else if d == 7 {
        "7"
    } else if d == 8 {
        "8"
    } else {
        "9"
    };
    assert(text@ =~= seq![digit_char(d as int)]);
    text
}

/// Writes `n` as a decimal numeral.
pub fn decimal_string(n: u32) -> (text: String)
    ensures
        text@ == decimal(n as nat),
    decreases n,
{
    if n < 10 {
        String::from_str(digit_text(n))
    } else {
        let mut text = decimal_string(n / 10);
        text.append(digit_text(n % 10));
        text
    }
}

/// The name of the file that holds image number `id`: its decimal numeral,
/// then the image suffix.
pub fn image_file_name(id: u32) -> (name: String)
    ensures
        name@ == image_name(id),
{
    let mut name = decimal_string(id);
    name.append(IMAGE_SUFFIX);
    name
}

/// The value that a string of digits writes.
pub open spec fn numeral_value(text: Seq<char>) -> nat
    decreases text.len(),
{
    if text.len() == 0 {
        0
    } else {
        numeral_value(text.drop_last()) * 10 + (text.last() as nat - '0' as nat) as nat
    }
}

/// Reading a decimal numeral gives the number back, so two numbers never
/// share a numeral.
pub proof fn lemma_decimal_reads_back(n: nat)
    ensures
        numeral_value(decimal(n)) == n,
    decreases n,
{
    if n < 10 {
        assert(decimal(n).drop_last() =~= Seq::<char>::empty());
        assert(numeral_value(decimal(n).drop_last()) == 0);
    } else {
        lemma_decimal_reads_back(n / 10);
        let text = decimal(n);
        assert(text.drop_last() =~= decimal(n / 10));
        assert(text.last() == digit_char((n % 10) as int));
    }
}

/// Two ids never share a file: different ids have different image names.
pub proof fn lemma_image_names_differ(a: u32, b: u32)
    requires
        a != b,
    ensures
        image_name(a) != image_name(b),
{
    if image_name(a) == image_name(b) {
        let left = decimal(a as nat);
        let right = decimal(b as nat);
        let suffix = IMAGE_SUFFIX@;
        assert((left + suffix).len() == (right + suffix).len());
        assert(left.len() == right.len());
        assert(left =~= (left + suffix).subrange(0, left.len() as int));
        assert(right =~= (right + suffix).subrange(0, right.len() as int));
        lemma_decimal_reads_back(a as nat);
        lemma_decimal_reads_back(b as nat);
    }
}

} // verus!
