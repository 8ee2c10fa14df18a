use vstd::prelude::*;
use vstd::string::StringExecFns;
use crate::currency::Currency;
use crate::text::{is_digit, to_uppercase, uppercase_of};

verus! {

/// What a value is checked to be.
#[derive(Clone, Copy, Debug, PartialEq, Eq, Structural)]
pub enum ValidationType {
    Amount,
    Currency,
}

/// Whether `code` is the code of one of the currencies.
pub open spec fn is_supported(currencies: Seq<Currency>, code: Seq<char>) -> bool {
    exists|i: int| 0 <= i < currencies.len() && (#[trigger] currencies[i])@.code == code
}

/// Where the run of digits that starts at `from` ends: the position of the first character
/// at or after `from` that is no digit, or the length of the text.
pub open spec fn digits_end(text: Seq<char>, from: int) -> int
    decreases text.len() - from,
{
    if 0 <= from < text.len() && is_digit(text[from]) {
        digits_end(text, from + 1)
    } else {
        from
    }
}

/// Whether `c` is the lower-case letter `letter` or its upper-case form.
pub open spec fn is_letter(c: char, letter: char) -> bool {
    c == letter || ('a' <= letter && letter <= 'z' && c as u32 + 32 == letter as u32)
}

/// Whether `text` is `word`, whatever the case of its letters.
pub open spec fn is_word(text: Seq<char>, word: Seq<char>) -> bool {
    text.len() == word.len() && forall|i: int|
        0 <= i < word.len() ==> is_letter(#[trigger] text[i], word[i])
}

/// Whether the text from `from` to its end is an exponent without its letter: an optional
/// sign and at least one digit.
pub open spec fn is_exponent(text: Seq<char>, from: int) -> bool {
    let digits = if from < text.len() && (text[from] == '+' || text[from] == '-') {
        from + 1
    } else {
        from
    };
    digits < text.len() && digits_end(text, digits) == text.len()
}

/// Whether the text from `from` to its end is a decimal number: digits with at most one
/// point among them, at least one digit before or after the point, and then, if anything,
/// the letter `e` in either case and an exponent.
pub open spec fn is_decimal(text: Seq<char>, from: int) -> bool {
    let whole_end = digits_end(text, from);
    let mantissa_end = if whole_end < text.len() && text[whole_end] == '.' {
        digits_end(text, whole_end + 1)
    } else {
        whole_end
    };
    let digits = if mantissa_end == whole_end {
        whole_end - from
    } else {
        mantissa_end - from - 1
    };
    digits > 0 && (mantissa_end == text.len() || ((text[mantissa_end] == 'e'
        || text[mantissa_end] == 'E') && is_exponent(text, mantissa_end + 1)))
}

/// Whether a text is the text of a number: an optional sign, and then a decimal number or
/// one of the words `inf`, `infinity` and `nan` in any case.
pub open spec fn is_number(text: Seq<char>) -> bool {
    let from: int = if text.len() > 0 && (text[0] == '+' || text[0] == '-') {
        1
    } else {
        0
    };
    from < text.len() && (is_decimal(text, from) || is_word(
        text.subrange(from, text.len() as int),
        "inf"@,
    ) || is_word(text.subrange(from, text.len() as int), "infinity"@) || is_word(
        text.subrange(from, text.len() as int),
        "nan"@,
    ))
}

/// The verdict on an amount: it is valid where it is the text of a number.
pub open spec fn amount_verdict(val: Seq<char>) -> Result<(), Seq<char>> {
    if is_number(val) {
        Ok(())
    } else {
        Err(val + " is not a valid number"@)
    }
}

/// The verdict on a currency code: it is valid where, put in upper case, it is the code of
/// one of the supported currencies.
pub open spec fn currency_verdict(val: Seq<char>, currencies: Seq<Currency>) -> Result<
    (),
    Seq<char>,
> {
    if is_supported(currencies, uppercase_of(val)) {
        Ok(())
    } else {
        Err(uppercase_of(val) + " is not a valid currency"@)
    }
}

/// The view of a verdict.
pub open spec fn verdict_view(verdict: Result<(), String>) -> Result<(), Seq<char>> {
    match verdict {
        Ok(_) => Ok(()),
        Err(message) => Err(message@),
    }
}

/// Whether one of the currencies has the code `code`.
pub fn has_code(currencies: &Vec<Currency>, code: &String) -> (r: bool)
    ensures
        r == is_supported(currencies@, code@),
{
    let mut i: usize = 0;
    while i < currencies.len()
        invariant
            i <= currencies.len(),
            forall|j: int| 0 <= j < i ==> (#[trigger] currencies@[j])@.code != code@,
        decreases currencies.len() - i,
    {
        if *currencies[i].get_code() == *code {
            return true;
        }
        i += 1;
    }
    false
}

/// Where the run of digits that starts at `from` ends. `len` is the length of the text.
fn scan_digits(text: &str, len: usize, from: usize) -> (end: usize)
    requires
        len == text@.len(),
        from <= len,
    ensures
        end == digits_end(text@, from as int),
        from <= end <= len,
{
    let mut i: usize = from;
    while i < len
        invariant
            len == text@.len(),
            from <= i <= len,
            digits_end(text@, from as int) == digits_end(text@, i as int),
        decreases len - i,
    {
        let c = text.get_char(i);
        if !('0' <= c && c <= '9') {
            return i;
        }
        i += 1;
    }
    i
}

/// Whether the text from `from` to its end is `word`, whatever the case of its letters.
fn reads_word(text: &str, len: usize, from: usize, word: &str) -> (r: bool)
    requires
        len == text@.len(),
        from <= len,
    ensures
        r == is_word(text@.subrange(from as int, len as int), word@),
{
    let ghost rest = text@.subrange(from as int, len as int);
    let word_len = word.unicode_len();
    if len - from != word_len {
        return false;
    }
    let mut i: usize = 0;
    while i < word_len
        invariant
            len == text@.len(),
            from <= len,
            word_len == word@.len(),
            len - from == word_len,
            i <= word_len,
            rest == text@.subrange(from as int, len as int),
            forall|j: int| 0 <= j < i ==> is_letter(#[trigger] rest[j], word@[j]),
        decreases word_len - i,
    {
        let c = text.get_char(from + i);
        let w = word.get_char(i);
        assert(rest[i as int] == c);
        let same = c == w || ('a' <= w && w <= 'z' && (c as u32) + 32 == (w as u32));
        if !same {
            return false;
        }
        i += 1;
    }
    true
}

/// Whether the text from `from` to its end is an exponent without its letter.
fn reads_exponent(text: &str, len: usize, from: usize) -> (r: bool)
    requires
        len == text@.len(),
        from <= len,
    ensures
        r == is_exponent(text@, from as int),
{
    let mut digits = from;
    if from < len {
        let c = text.get_char(from);
        if c == '+' || c == '-' {
            digits = from + 1;
        }
    }
    digits < len && scan_digits(text, len, digits) == len
}

/// Whether the text from `from` to its end is a decimal number.
fn reads_decimal(text: &str, len: usize, from: usize) -> (r: bool)
    requires
        len == text@.len(),
        from <= len,
    ensures
        r == is_decimal(text@, from as int),
{
    let whole_end = scan_digits(text, len, from);
    let mut mantissa_end = whole_end;
    if whole_end < len && text.get_char(whole_end) == '.' {
        mantissa_end = scan_digits(text, len, whole_end + 1);
    }
    let digits = if mantissa_end == whole_end {
        whole_end - from
    } else {
        mantissa_end - from - 1
    };
    if digits == 0 {
        return false;
    }
    if mantissa_end == len {
        return true;
    }
    let c = text.get_char(mantissa_end);
    (c == 'e' || c == 'E') && reads_exponent(text, len, mantissa_end + 1)
}

/// Whether a text is the text of a number.
pub fn is_number_text(text: &str) -> (r: bool)
    ensures
        r == is_number(text@),
{
    let len = text.unicode_len();
    let mut from: usize = 0;
    if len > 0 {
        let c = text.get_char(0);
        if c == '+' || c == '-' {
            from = 1;
        }
    }
    from < len && (reads_decimal(text, len, from) || reads_word(text, len, from, "inf")
        || reads_word(text, len, from, "infinity") || reads_word(text, len, from, "nan"))
}

/// Checks a value: an amount must be the text of a number, and a currency one of the
/// supported currencies, which must be given for it.
pub fn validate(
    val: &String,
    validation_type: ValidationType,
    supported_currencies: Option<&Vec<Currency>>,
) -> (r: Result<(), String>)
    requires
        validation_type is Currency ==> supported_currencies is Some,
    ensures
        validation_type is Amount ==> verdict_view(r) == amount_verdict(val@),
        validation_type is Currency ==> verdict_view(r) == currency_verdict(
            val@,
            supported_currencies->0@,
        ),
{
    match validation_type {
        ValidationType::Amount => {
            if is_number_text(val.as_str()) {
                Ok(())
            } else {
                let mut message = val.clone();
                message.append(" is not a valid number");
                Err(message)
            }
        },
        ValidationType::Currency => {
            let supported_currencies = supported_currencies.unwrap();
            let currency = to_uppercase(val.as_str());
            if has_code(supported_currencies, &currency) {
                Ok(())
            } else {
                let mut message = currency;
                message.append(" is not a valid currency");
                Err(message)
            }
        },
    }
}

/// The verdict on the arguments of a conversion: where the supported currencies are not
/// known, nothing is checked here; otherwise the first failure among the amount, the source
/// and the target, in this order.
pub open spec fn arguments_verdict(
    source: Seq<char>,
    target: Seq<char>,
    amount: Seq<char>,
    supported_currencies: Result<Vec<Currency>, String>,
) -> Result<(), Seq<char>> {
    match supported_currencies {
        Err(_) => Ok(()),
        Ok(currencies) => if amount_verdict(amount) is Err {
            amount_verdict(amount)
        } else if currency_verdict(source, currencies@) is Err {
            currency_verdict(source, currencies@)
        } else {
            currency_verdict(target, currencies@)
        },
    }
}

/// Checks the arguments of a conversion against the supported currencies, as far as these
/// could be had.
pub fn validate_args(
    source: &String,
    target: &String,
    amount: &String,
    supported_currencies: &Result<Vec<Currency>, String>,
) -> (r: Result<(), String>)
    ensures
        verdict_view(r) == arguments_verdict(
            source@,
            target@,
            amount@,
            *supported_currencies,
        ),
{
    match supported_currencies {
        Err(_) => Ok(()),
        Ok(currencies) => {
            let of_amount = validate(amount, ValidationType::Amount, None);
            if of_amount.is_err() {
                return of_amount;
            }
            let of_source = validate(source, ValidationType::Currency, Some(currencies));
            if of_source.is_err() {
                return of_source;
            }
            validate(target, ValidationType::Currency, Some(currencies))
        },
    }
}

} // verus!
