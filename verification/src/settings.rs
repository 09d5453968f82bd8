//! The gateway's settings, from environment variables. Secrets have no defaults:
//! every variable but the two numbers of days must be set.

use vstd::prelude::*;
use vstd::string::*;

use crate::text::{debug_quoted, decimal, digits, join3, quote, same_text};

verus! {

/// The settings. They hold the PIN, so there is no way to print them.
pub struct EnvConfig {
    pub listen_addr: String,
    pub server_cert: String,
    pub server_key: String,
    pub client_ca: String,
    pub clients_config: String,
    pub pkcs11_module: String,
    pub hsm_pin: String,
    pub audit_log: String,
    pub integrity_key_label: String,
    pub max_client_cert_validity_days: i64,
    pub cert_expiry_warn_days: i64,
}

/// Why the settings are of no use, with the cause.
#[derive(Debug)]
pub enum EnvError {
    NotSet { name: String, cause: String },
    NotDays { name: String, value: String, fault: IntegerFault },
}

/// An error, with the characters of its texts.
pub enum EnvErrorModel {
    NotSet { name: Seq<char>, cause: Seq<char> },
    NotDays { name: Seq<char>, value: Seq<char>, fault: IntegerFault },
}

impl View for EnvError {
    type V = EnvErrorModel;

    open spec fn view(&self) -> EnvErrorModel {
        match self {
            EnvError::NotSet { name, cause } => EnvErrorModel::NotSet {
                name: name@,
                cause: cause@,
            },
            EnvError::NotDays { name, value, fault } => EnvErrorModel::NotDays {
                name: name@,
                value: value@,
                fault: *fault,
            },
        }
    }
}

/// The words for an error, without its cause.
pub open spec fn env_error_words(e: EnvErrorModel) -> Seq<char> {
    match e {
        EnvErrorModel::NotSet { name, .. } => "environment variable "@ + name + " is not set"@,
        EnvErrorModel::NotDays { name, value, .. } => name + " must be an integer (days), was "@
            + debug_quoted(value),
    }
}

/// The cause of an error.
pub open spec fn env_error_cause(e: EnvErrorModel) -> Seq<char> {
    match e {
        EnvErrorModel::NotSet { cause, .. } => cause,
        EnvErrorModel::NotDays { fault, .. } => integer_fault_words(fault),
    }
}

impl EnvError {
    /// The words for the error, without its cause.
    pub fn text(&self) -> (r: String)
        ensures
            r@ == env_error_words(self@),
    {
        match self {
            EnvError::NotSet { name, .. } => {
                join3("environment variable ", name.as_str(), " is not set")
            },
            EnvError::NotDays { name, value, .. } => {
                let quoted = quote(value.as_str());
                join3(name.as_str(), " must be an integer (days), was ", quoted.as_str())
            },
        }
    }

    /// The cause of the error.
    pub fn cause(&self) -> (r: &str)
        ensures
            r@ == env_error_cause(self@),
    {
        match self {
            EnvError::NotSet { cause, .. } => cause.as_str(),
            EnvError::NotDays { fault, .. } => fault.text(),
        }
    }
}

// ---------------------------------------------------------------------------
// Integers
// ---------------------------------------------------------------------------

/// A decimal digit.
pub open spec fn is_digit(c: char) -> bool {
    '0' <= c <= '9'
}

/// The number that decimal digits stand for.
pub open spec fn number(s: Seq<char>) -> nat
    decreases s.len(),
{
    if s.len() == 0 {
        0
    } else {
        10 * number(s.drop_last()) + (s.last() as nat - '0' as nat) as nat
    }
}

/// A text without the sign in front.
pub open spec fn unsigned(s: Seq<char>) -> Seq<char> {
    if s.len() > 0 && (s[0] == '+' || s[0] == '-') {
        s.drop_first()
    } else {
        s
    }
}

/// A text with a minus sign in front.
pub open spec fn negative(s: Seq<char>) -> bool {
    s.len() > 0 && s[0] == '-'
}

/// Why a text is not a 64-bit integer.
#[derive(Debug, Clone, Copy, PartialEq, Eq, Structural)]
pub enum IntegerFault {
    Empty,
    InvalidDigit,
    TooLarge,
    TooSmall,
}

/// The words for a fault, as std has them.
pub open spec fn integer_fault_words(fault: IntegerFault) -> Seq<char> {
    match fault {
        IntegerFault::Empty => "cannot parse integer from empty string"@,
        IntegerFault::InvalidDigit => "invalid digit found in string"@,
        IntegerFault::TooLarge => "number too large to fit in target type"@,
        IntegerFault::TooSmall => "number too small to fit in target type"@,
    }
}

impl IntegerFault {
    /// The words for the fault, as std has them.
    pub fn text(&self) -> (r: &'static str)
        ensures
            r@ == integer_fault_words(*self),
    {
        match self {
            IntegerFault::Empty => "cannot parse integer from empty string",
            IntegerFault::InvalidDigit => "invalid digit found in string",
            IntegerFault::TooLarge => "number too large to fit in target type",
            IntegerFault::TooSmall => "number too small to fit in target type",
        }
    }
}

/// What is wrong with the character at position `k` behind the sign, the earlier
/// ones being fine: it is no digit, or the number up to it does not fit.
pub open spec fn digit_fault_at(tail: Seq<char>, minus: bool, k: int) -> Option<IntegerFault> {
    if !is_digit(tail[k]) {
        Some(IntegerFault::InvalidDigit)
    } else if minus && -(number(tail.take(k + 1)) as int) < i64::MIN {
        Some(IntegerFault::TooSmall)
    } else if !minus && number(tail.take(k + 1)) > i64::MAX {
        Some(IntegerFault::TooLarge)
    } else {
        None
    }
}

/// The first fault from position `k` behind the sign on.
pub open spec fn digits_fault(tail: Seq<char>, minus: bool, k: int) -> Option<IntegerFault>
    decreases tail.len() - k,
{
    if k >= tail.len() {
        None
    } else {
        match digit_fault_at(tail, minus, k) {
            Some(fault) => Some(fault),
            None => digits_fault(tail, minus, k + 1),
        }
    }
}

/// The 64-bit integer that a text stands for: a sign or none, then digits.
pub open spec fn integer(s: Seq<char>) -> Result<int, IntegerFault> {
    let tail = unsigned(s);
    if s.len() == 0 {
        Err(IntegerFault::Empty)
    } else if tail.len() == 0 {
        Err(IntegerFault::InvalidDigit)
    } else {
        match digits_fault(tail, negative(s), 0) {
            Some(fault) => Err(fault),
            None => Ok(
                if negative(s) {
                    -(number(tail) as int)
                } else {
                    number(tail) as int
                },
            ),
        }
    }
}

/// Reads a 64-bit integer in decimal.
pub fn parse_integer(text: &str) -> (r: Result<i64, IntegerFault>)
    ensures
        match r {
            Ok(n) => integer(text@) == Ok::<int, IntegerFault>(n as int),
            Err(fault) => integer(text@) == Err::<int, IntegerFault>(fault),
        },
{
    let ghost all = text@;
    let len: usize = text.unicode_len();
    if len == 0 {
        return Err(IntegerFault::Empty);
    }
    let first = text.get_char(0);
    let minus: bool = first == '-';
    let start: usize = if first == '+' || first == '-' {
        1
    } else {
        0
    };
    let ghost tail = unsigned(all);
    assert(tail =~= all.skip(start as int));
    if start == len {
        return Err(IntegerFault::InvalidDigit);
    }
    let mut i: usize = start;
    let mut n: u64 = 0;
    assert(tail.take(0) =~= Seq::<char>::empty());
    while i < len
        invariant
            start <= i <= len,
            start <= 1,
            start < len,
            len == all.len(),
            all == text@,
            tail == unsigned(all),
            tail == all.skip(start as int),
            minus == negative(all),
            digits_fault(tail, minus, 0) == digits_fault(tail, minus, i - start),
            n == number(tail.take(i - start)),
            n <= if minus {
                0x8000_0000_0000_0000u64
            } else {
                0x7fff_ffff_ffff_ffffu64
            },
        decreases len - i,
    {
        let c = text.get_char(i);
        assert(tail[i - start] == c);
        if !('0' <= c && c <= '9') {
            return Err(IntegerFault::InvalidDigit);
        }
        proof {
            assert(tail.take(i + 1 - start).drop_last() =~= tail.take(i - start));
            assert(tail.take(i + 1 - start).last() == c);
        }
        let next: u128 = 10 * (n as u128) + (c as u128 - '0' as u128);
        assert(next == number(tail.take(i + 1 - start)));
        if minus && next > 0x8000_0000_0000_0000 {
            return Err(IntegerFault::TooSmall);
        }
        if !minus && next > 0x7fff_ffff_ffff_ffff {
            return Err(IntegerFault::TooLarge);
        }
        n = next as u64;
        i += 1;
    }
    assert(tail.take(len - start) =~= tail);
    if !minus {
        Ok(n as i64)
    } else if n == 0x8000_0000_0000_0000 {
        Ok(i64::MIN)
    } else {
        Ok(-(n as i64))
    }
}

// ---------------------------------------------------------------------------
// Variables
// ---------------------------------------------------------------------------

/// What a lookup of a variable gave: its value, or why there is none.
pub type Lookup = Result<Seq<char>, Seq<char>>;

/// A lookup, with its characters.
pub open spec fn lookup_view(r: Result<String, String>) -> Lookup {
    match r {
        Ok(value) => Ok(value@),
        Err(cause) => Err(cause@),
    }
}

/// The variables that were looked up, each with what that gave.
pub open spec fn variables(vars: Seq<(String, Result<String, String>)>) -> Seq<
    (Seq<char>, Lookup),
> {
    Seq::new(vars.len(), |i: int| (vars[i].0@, lookup_view(vars[i].1)))
}

/// The cause where a variable was not looked up at all, as std has it for one that
/// is not there.
pub const NOT_FOUND: &'static str = "environment variable not found";

/// What the first lookup of a variable gave.
pub open spec fn value_of(vars: Seq<(Seq<char>, Lookup)>, name: Seq<char>) -> Lookup
    decreases vars.len(),
{
    if vars.len() == 0 {
        Err(NOT_FOUND@)
    } else if vars[0].0 == name {
        vars[0].1
    } else {
        value_of(vars.drop_first(), name)
    }
}

/// What the first lookup of a variable gave.
pub fn lookup<'a>(vars: &'a Vec<(String, Result<String, String>)>, name: &str) -> (r: Result<
    &'a str,
    &'a str,
>)
    ensures
        match r {
            Ok(value) => value_of(variables(vars@), name@) == Ok::<Seq<char>, Seq<char>>(value@),
            Err(cause) => value_of(variables(vars@), name@) == Err::<Seq<char>, Seq<char>>(cause@),
        },
{
    let ghost all = variables(vars@);
    let mut i: usize = 0;
    assert(all.skip(0) =~= all);
    while i < vars.len()
        invariant
            i <= vars@.len(),
            all == variables(vars@),
            value_of(all, name@) == value_of(all.skip(i as int), name@),
        decreases vars@.len() - i,
    {
        assert(all.skip(i as int)[0] == (vars@[i as int].0@, lookup_view(vars@[i as int].1)));
        if same_text(vars[i].0.as_str(), name) {
            return match &vars[i].1 {
                Ok(value) => Ok(value.as_str()),
                Err(cause) => Err(cause.as_str()),
            };
        }
        assert(all.skip(i as int).drop_first() =~= all.skip(i + 1));
        i += 1;
    }
    Err(NOT_FOUND)
}

/// A variable that must be set.
pub open spec fn required(vars: Seq<(Seq<char>, Lookup)>, name: Seq<char>) -> Result<
    Seq<char>,
    EnvErrorModel,
> {
    match value_of(vars, name) {
        Ok(value) => Ok(value),
        Err(cause) => Err(EnvErrorModel::NotSet { name, cause }),
    }
}

/// A number of days, with a default where the variable is not set.
pub open spec fn days(vars: Seq<(Seq<char>, Lookup)>, name: Seq<char>, default: int) -> Result<
    int,
    EnvErrorModel,
> {
    match value_of(vars, name) {
        Ok(value) => match integer(value) {
            Ok(n) => Ok(n),
            Err(fault) => Err(EnvErrorModel::NotDays { name, value, fault }),
        },
        Err(_) => Ok(default),
    }
}

/// A variable that must be set.
pub fn required_var(vars: &Vec<(String, Result<String, String>)>, name: &str) -> (r: Result<
    String,
    EnvError,
>)
    ensures
        match r {
            Ok(value) => required(variables(vars@), name@) == Ok::<Seq<char>, EnvErrorModel>(
                value@,
            ),
            Err(e) => required(variables(vars@), name@) == Err::<Seq<char>, EnvErrorModel>(e@),
        },
{
    match lookup(vars, name) {
        Ok(value) => Ok(value.to_owned()),
        Err(cause) => Err(EnvError::NotSet { name: name.to_owned(), cause: cause.to_owned() }),
    }
}

/// A number of days, with a default where the variable is not set.
pub fn days_var(vars: &Vec<(String, Result<String, String>)>, name: &str, default: i64) -> (r: Result<
    i64,
    EnvError,
>)
    ensures
        match r {
            Ok(n) => days(variables(vars@), name@, default as int) == Ok::<int, EnvErrorModel>(
                n as int,
            ),
            Err(e) => days(variables(vars@), name@, default as int) == Err::<int, EnvErrorModel>(
                e@,
            ),
        },
{
    match lookup(vars, name) {
        Ok(value) => match parse_integer(value) {
            Ok(n) => Ok(n),
            Err(fault) => Err(
                EnvError::NotDays { name: name.to_owned(), value: value.to_owned(), fault },
            ),
        },
        Err(_) => Ok(default),
    }
}

/// The names of the variables that must be set, in the order in which they are
/// asked for.
pub open spec fn required_names() -> Seq<Seq<char>> {
    seq![
        "GATEWAY_LISTEN_ADDR"@,
        "GATEWAY_SERVER_CERT"@,
        "GATEWAY_SERVER_KEY"@,
        "GATEWAY_CLIENT_CA"@,
        "GATEWAY_CLIENTS_CONFIG"@,
        "GATEWAY_PKCS11_MODULE"@,
        "GATEWAY_HSM_PIN"@,
        "GATEWAY_AUDIT_LOG"@,
        "GATEWAY_INTEGRITY_KEY_LABEL"@,
    ]
}

/// The error for the first required variable from position `k` on that is not set.
pub open spec fn first_missing(vars: Seq<(Seq<char>, Lookup)>, k: int) -> Option<
    EnvErrorModel,
>
    decreases required_names().len() - k,
{
    if k < 0 || k >= required_names().len() {
        None
    } else {
        match required(vars, required_names()[k]) {
            Err(e) => Some(e),
            Ok(_) => first_missing(vars, k + 1),
        }
    }
}

/// The most days that a client certificate may be valid for, and how many days
/// before its end a warning is due.
pub open spec fn policy_days(vars: Seq<(Seq<char>, Lookup)>) -> (
    Result<int, EnvErrorModel>,
    Result<int, EnvErrorModel>,
) {
    (
        days(vars, "GATEWAY_MAX_CLIENT_CERT_VALIDITY_DAYS"@, 90),
        days(vars, "GATEWAY_CERT_EXPIRY_WARN_DAYS"@, 14),
    )
}

/// The first thing that is wrong with the variables.
pub open spec fn env_fault(vars: Seq<(Seq<char>, Lookup)>) -> Option<EnvErrorModel> {
    match first_missing(vars, 0) {
        Some(e) => Some(e),
        None => match policy_days(vars) {
            (Err(e), _) => Some(e),
            (_, Err(e)) => Some(e),
            _ => None,
        },
    }
}

/// Every setting has the value of its own variable.
pub open spec fn reflects(cfg: EnvConfig, vars: Seq<(Seq<char>, Lookup)>) -> bool {
    &&& value_of(vars, "GATEWAY_LISTEN_ADDR"@) == Ok::<Seq<char>, Seq<char>>(cfg.listen_addr@)
    &&& value_of(vars, "GATEWAY_SERVER_CERT"@) == Ok::<Seq<char>, Seq<char>>(cfg.server_cert@)
    &&& value_of(vars, "GATEWAY_SERVER_KEY"@) == Ok::<Seq<char>, Seq<char>>(cfg.server_key@)
    &&& value_of(vars, "GATEWAY_CLIENT_CA"@) == Ok::<Seq<char>, Seq<char>>(cfg.client_ca@)
    &&& value_of(vars, "GATEWAY_CLIENTS_CONFIG"@) == Ok::<Seq<char>, Seq<char>>(cfg.clients_config@)
    &&& value_of(vars, "GATEWAY_PKCS11_MODULE"@) == Ok::<Seq<char>, Seq<char>>(cfg.pkcs11_module@)
    &&& value_of(vars, "GATEWAY_HSM_PIN"@) == Ok::<Seq<char>, Seq<char>>(cfg.hsm_pin@)
    &&& value_of(vars, "GATEWAY_AUDIT_LOG"@) == Ok::<Seq<char>, Seq<char>>(cfg.audit_log@)
    &&& value_of(vars, "GATEWAY_INTEGRITY_KEY_LABEL"@) == Ok::<Seq<char>, Seq<char>>(cfg.integrity_key_label@)
    &&& policy_days(vars) == (
        Ok::<int, EnvErrorModel>(cfg.max_client_cert_validity_days as int),
        Ok::<int, EnvErrorModel>(cfg.cert_expiry_warn_days as int),
    )
}

/// Reads the settings. The first variable that is missing or of no use is the
/// error.
pub fn load_env(vars: &Vec<(String, Result<String, String>)>) -> (r: Result<EnvConfig, EnvError>)
    ensures
        match r {
            Ok(cfg) => env_fault(variables(vars@)) is None && reflects(cfg, variables(vars@)),
            Err(e) => env_fault(variables(vars@)) == Some(e@),
        },
{
    proof {
        reveal_with_fuel(first_missing, 10);
    }
    Ok(
        EnvConfig {
            listen_addr: required_var(vars, "GATEWAY_LISTEN_ADDR")?,
            server_cert: required_var(vars, "GATEWAY_SERVER_CERT")?,
            server_key: required_var(vars, "GATEWAY_SERVER_KEY")?,
            client_ca: required_var(vars, "GATEWAY_CLIENT_CA")?,
            clients_config: required_var(vars, "GATEWAY_CLIENTS_CONFIG")?,
            pkcs11_module: required_var(vars, "GATEWAY_PKCS11_MODULE")?,
            hsm_pin: required_var(vars, "GATEWAY_HSM_PIN")?,
            audit_log: required_var(vars, "GATEWAY_AUDIT_LOG")?,
            integrity_key_label: required_var(vars, "GATEWAY_INTEGRITY_KEY_LABEL")?,
            max_client_cert_validity_days: days_var(
                vars,
                "GATEWAY_MAX_CLIENT_CERT_VALIDITY_DAYS",
                90,
            )?,
            cert_expiry_warn_days: days_var(vars, "GATEWAY_CERT_EXPIRY_WARN_DAYS", 14)?,
        },
    )
}

// ---------------------------------------------------------------------------
// Laws
// ---------------------------------------------------------------------------

/// Digits are read from left to right, ten times what was read before and the next one.
pub proof fn law_digits_are_read_in_tens(s: Seq<char>, c: char)
    requires
        '0' <= c <= '9',
    ensures
        number(Seq::<char>::empty()) == 0,
        number(s.push(c)) == 10 * number(s) + (c as int - '0' as int),
        is_digit(c),
{
    assert(s.push(c).drop_last() =~= s);
}

proof fn lemma_digits_fine(tail: Seq<char>, minus: bool, k: int)
    requires
        0 <= k <= tail.len(),
        digits_fault(tail, minus, k) is None,
    ensures
        forall|i: int| k <= i < tail.len() ==> '0' <= #[trigger] tail[i] <= '9',
        tail.len() > k ==> if minus {
            number(tail) <= 0x8000_0000_0000_0000
        } else {
            number(tail) <= 0x7fff_ffff_ffff_ffff
        },
    decreases tail.len() - k,
{
    if k < tail.len() {
        assert(digit_fault_at(tail, minus, k) is None);
        lemma_digits_fine(tail, minus, k + 1);
        if k + 1 == tail.len() {
            assert(tail.take(k + 1) =~= tail);
        }
    }
}

proof fn lemma_number_grows(s: Seq<char>, n: int)
    requires
        0 <= n <= s.len(),
        forall|i: int| 0 <= i < s.len() ==> '0' <= #[trigger] s[i] <= '9',
    ensures
        number(s.take(n)) <= number(s),
    decreases s.len(),
{
    if n == s.len() {
        assert(s.take(n) =~= s);
    } else {
        let rest = s.drop_last();
        assert forall|i: int| 0 <= i < rest.len() implies '0' <= #[trigger] rest[i] <= '9' by {
            assert(rest[i] == s[i]);
        }
        assert(rest.take(n) =~= s.take(n));
        lemma_number_grows(rest, n);
        assert('0' <= s[s.len() - 1] <= '9');
    }
}

proof fn lemma_fine_digits(tail: Seq<char>, minus: bool, k: int)
    requires
        0 <= k <= tail.len(),
        forall|i: int| 0 <= i < tail.len() ==> '0' <= #[trigger] tail[i] <= '9',
        if minus {
            number(tail) <= 0x8000_0000_0000_0000
        } else {
            number(tail) <= 0x7fff_ffff_ffff_ffff
        },
    ensures
        digits_fault(tail, minus, k) is None,
    decreases tail.len() - k,
{
    if k < tail.len() {
        lemma_number_grows(tail, k + 1);
        assert('0' <= tail[k] <= '9');
        lemma_fine_digits(tail, minus, k + 1);
    }
}

/// Digits alone are the number they stand for, a plus sign in front changes nothing, a
/// minus sign negates it; what does not fit in 64 bits, or is anything but a sign or
/// none and digits, is no integer.
pub proof fn law_integers_are_signed_digits(digits: Seq<char>)
    ensures
        ({
            let all_digits = digits.len() > 0 && forall|i: int|
                0 <= i < digits.len() ==> '0' <= #[trigger] digits[i] <= '9';
            &&& (digits.len() == 0 || (digits[0] != '+' && digits[0] != '-')) ==> (integer(digits)
                is Ok <==> all_digits && number(digits) <= 0x7fff_ffff_ffff_ffff)
            &&& integer(seq!['+'] + digits) is Ok <==> all_digits && number(digits)
                <= 0x7fff_ffff_ffff_ffff
            &&& integer(seq!['-'] + digits) is Ok <==> all_digits && number(digits)
                <= 0x8000_0000_0000_0000
            &&& all_digits && integer(digits) is Ok ==> integer(digits) == Ok::<int, IntegerFault>(
                number(digits) as int,
            )
            &&& integer(seq!['+'] + digits) is Ok ==> integer(seq!['+'] + digits) == Ok::<
                int,
                IntegerFault,
            >(number(digits) as int)
            &&& integer(seq!['-'] + digits) is Ok ==> integer(seq!['-'] + digits) == Ok::<
                int,
                IntegerFault,
            >(-(number(digits) as int))
        }),
{
    let plus = seq!['+'] + digits;
    let minus = seq!['-'] + digits;
    assert(unsigned(plus) =~= digits);
    assert(unsigned(minus) =~= digits);
    if digits.len() > 0 {
        if digits_fault(digits, false, 0) is None {
            lemma_digits_fine(digits, false, 0);
        }
        if digits_fault(digits, true, 0) is None {
            lemma_digits_fine(digits, true, 0);
        }
        if forall|i: int| 0 <= i < digits.len() ==> '0' <= #[trigger] digits[i] <= '9' {
            assert('0' <= digits[0] <= '9');
            if number(digits) <= 0x7fff_ffff_ffff_ffff {
                lemma_fine_digits(digits, false, 0);
            }
            if number(digits) <= 0x8000_0000_0000_0000 {
                lemma_fine_digits(digits, true, 0);
            }
        }
    }
}

/// Why a text is no integer: it is empty, or its first bad character behind the sign is
/// no digit or makes the number too large or too small.
pub proof fn law_first_bad_digit_is_the_fault(s: Seq<char>, k: int)
    requires
        s.len() > 0,
        0 <= k < unsigned(s).len(),
        forall|i: int| 0 <= i < k ==> digit_fault_at(unsigned(s), negative(s), i) is None,
        digit_fault_at(unsigned(s), negative(s), k) is Some,
    ensures
        integer(Seq::<char>::empty()) == Err::<int, IntegerFault>(IntegerFault::Empty),
        integer(s) == Err::<int, IntegerFault>(
            if !('0' <= unsigned(s)[k] <= '9') {
                IntegerFault::InvalidDigit
            } else if s[0] == '-' {
                IntegerFault::TooSmall
            } else {
                IntegerFault::TooLarge
            },
        ),
{
    lemma_first_digit_fault(unsigned(s), negative(s), 0, k);
}

proof fn lemma_first_digit_fault(tail: Seq<char>, minus: bool, from: int, k: int)
    requires
        0 <= from <= k < tail.len(),
        forall|i: int| from <= i < k ==> digit_fault_at(tail, minus, i) is None,
        digit_fault_at(tail, minus, k) is Some,
    ensures
        digits_fault(tail, minus, from) == digit_fault_at(tail, minus, k),
    decreases k - from,
{
    if from < k {
        assert(digit_fault_at(tail, minus, from) is None);
        lemma_first_digit_fault(tail, minus, from + 1, k);
    }
}

proof fn lemma_digits_number(n: nat)
    ensures
        digits(n).len() > 0,
        forall|i: int| 0 <= i < digits(n).len() ==> '0' <= #[trigger] digits(n)[i] <= '9',
        number(digits(n)) == n,
        digits(n)[0] == '0' ==> n == 0 && digits(n).len() == 1,
    decreases n,
{
    reveal_with_fuel(number, 2);
    if n < 10 {
        assert(digits(n).drop_last() =~= Seq::<char>::empty());
    } else {
        lemma_digits_number(n / 10);
        let start = digits(n / 10);
        assert(digits(n).drop_last() =~= start);
        assert(digits(n)[0] == start[0]);
        assert forall|i: int| 0 <= i < digits(n).len() implies '0' <= #[trigger] digits(n)[i]
            <= '9' by {
            if i < start.len() {
                assert(digits(n)[i] == start[i]);
            }
        }
    }
}

/// An integer that is written out in decimal reads back as itself, and has no zeros in
/// front.
pub proof fn law_decimals_read_back(n: i64)
    ensures
        integer(decimal(n as int)) == Ok::<int, IntegerFault>(n as int),
        decimal(n as int)[0] == '0' ==> n == 0 && decimal(n as int).len() == 1,
        n < 0 ==> decimal(n as int)[0] == '-' && decimal(n as int)[1] != '0',
        n >= 0 ==> '0' <= decimal(n as int)[0] <= '9',
{
    reveal_strlit("-");
    let m: nat = if n < 0 {
        (-(n as int)) as nat
    } else {
        n as nat
    };
    lemma_digits_number(m);
    law_integers_are_signed_digits(digits(m));
    assert("-"@ =~= seq!['-']);
    if n < 0 {
        assert(decimal(n as int)[1] == digits(m)[0]);
    } else {
        assert('0' <= digits(m)[0] <= '9');
    }
}

/// A number that is not negative is written in decimal digits that stand for it, however
/// large it is, without zeros in front.
pub proof fn law_decimals_stand_for_the_number(n: nat)
    ensures
        forall|i: int|
            0 <= i < decimal(n as int).len() ==> '0' <= #[trigger] decimal(n as int)[i] <= '9',
        number(decimal(n as int)) == n,
        decimal(n as int).len() > 0,
        decimal(n as int)[0] == '0' ==> n == 0 && decimal(n as int).len() == 1,
{
    lemma_digits_number(n);
}

/// A variable has the value that its first lookup gave, whole; one that was not looked up
/// was not found.
pub proof fn law_first_lookup_counts(vars: Seq<(Seq<char>, Lookup)>, name: Seq<char>)
    ensures
        forall|i: int|
            0 <= i < vars.len() && (#[trigger] vars[i]).0 == name && (forall|j: int|
                0 <= j < i ==> (#[trigger] vars[j]).0 != name) ==> value_of(vars, name)
                == vars[i].1,
        (forall|i: int| 0 <= i < vars.len() ==> (#[trigger] vars[i]).0 != name) ==> value_of(
            vars,
            name,
        ) == Err::<Seq<char>, Seq<char>>("environment variable not found"@),
    decreases vars.len(),
{
    if vars.len() > 0 {
        let rest = vars.drop_first();
        law_first_lookup_counts(rest, name);
        assert forall|i: int|
            0 <= i < vars.len() && (#[trigger] vars[i]).0 == name && (forall|j: int|
                0 <= j < i ==> (#[trigger] vars[j]).0 != name) implies value_of(vars, name)
            == vars[i].1 by {
            if i > 0 {
                assert(vars[0].0 != name);
                assert(rest[i - 1] == vars[i]);
                assert forall|j: int| 0 <= j < i - 1 implies (#[trigger] rest[j]).0 != name by {
                    assert(rest[j] == vars[j + 1]);
                }
            }
        }
        if forall|i: int| 0 <= i < vars.len() ==> (#[trigger] vars[i]).0 != name {
            assert(vars[0].0 != name);
            assert forall|i: int| 0 <= i < rest.len() implies (#[trigger] rest[i]).0 != name by {
                assert(rest[i] == vars[i + 1]);
            }
        }
    }
}

/// A required variable is its value or an error with its name and the cause.
pub proof fn law_required_variables(vars: Seq<(Seq<char>, Lookup)>, name: Seq<char>)
    ensures
        match value_of(vars, name) {
            Ok(value) => required(vars, name) == Ok::<Seq<char>, EnvErrorModel>(value),
            Err(cause) => required(vars, name) == Err::<Seq<char>, EnvErrorModel>(
                EnvErrorModel::NotSet { name, cause },
            ),
        },
{
}

/// A number of days is the integer in the variable; where it has no value it is the
/// default, and where the value is no integer it is an error with both.
pub proof fn law_days_variables(vars: Seq<(Seq<char>, Lookup)>, name: Seq<char>, default: int)
    ensures
        match value_of(vars, name) {
            Err(_) => days(vars, name, default) == Ok::<int, EnvErrorModel>(default),
            Ok(value) => match integer(value) {
                Ok(n) => days(vars, name, default) == Ok::<int, EnvErrorModel>(n),
                Err(fault) => days(vars, name, default) == Err::<int, EnvErrorModel>(
                    EnvErrorModel::NotDays { name, value, fault },
                ),
            },
        },
{
}

/// The settings can be read exactly where nine variables are set and the two numbers of
/// days, where they are set, are integers; 90 and 14 stand in for them where not.
pub proof fn law_settings_are_complete(vars: Seq<(Seq<char>, Lookup)>)
    ensures
        env_fault(vars) is None <==> {
            &&& value_of(vars, "GATEWAY_LISTEN_ADDR"@) is Ok
            &&& value_of(vars, "GATEWAY_SERVER_CERT"@) is Ok
            &&& value_of(vars, "GATEWAY_SERVER_KEY"@) is Ok
            &&& value_of(vars, "GATEWAY_CLIENT_CA"@) is Ok
            &&& value_of(vars, "GATEWAY_CLIENTS_CONFIG"@) is Ok
            &&& value_of(vars, "GATEWAY_PKCS11_MODULE"@) is Ok
            &&& value_of(vars, "GATEWAY_HSM_PIN"@) is Ok
            &&& value_of(vars, "GATEWAY_AUDIT_LOG"@) is Ok
            &&& value_of(vars, "GATEWAY_INTEGRITY_KEY_LABEL"@) is Ok
            &&& days(vars, "GATEWAY_MAX_CLIENT_CERT_VALIDITY_DAYS"@, 90) is Ok
            &&& days(vars, "GATEWAY_CERT_EXPIRY_WARN_DAYS"@, 14) is Ok
        },
{
    reveal_with_fuel(first_missing, 10);
}

/// The error is the first there is, in the order of the settings: each variable is asked
/// for only where those before it were found.
pub proof fn law_first_missing_setting_is_the_error(vars: Seq<(Seq<char>, Lookup)>)
    ensures
        ({
            let addr = required(vars, "GATEWAY_LISTEN_ADDR"@);
            let cert = required(vars, "GATEWAY_SERVER_CERT"@);
            let key = required(vars, "GATEWAY_SERVER_KEY"@);
            let ca = required(vars, "GATEWAY_CLIENT_CA"@);
            let clients = required(vars, "GATEWAY_CLIENTS_CONFIG"@);
            let module = required(vars, "GATEWAY_PKCS11_MODULE"@);
            let pin = required(vars, "GATEWAY_HSM_PIN"@);
            let log = required(vars, "GATEWAY_AUDIT_LOG"@);
            let label = required(vars, "GATEWAY_INTEGRITY_KEY_LABEL"@);
            let most = days(vars, "GATEWAY_MAX_CLIENT_CERT_VALIDITY_DAYS"@, 90);
            let warn = days(vars, "GATEWAY_CERT_EXPIRY_WARN_DAYS"@, 14);
            env_fault(vars) matches Some(e) ==> {
                if addr is Err {
                    e == addr->Err_0
                } else if cert is Err {
                    e == cert->Err_0
                } else if key is Err {
                    e == key->Err_0
                } else if ca is Err {
                    e == ca->Err_0
                } else if clients is Err {
                    e == clients->Err_0
                } else if module is Err {
                    e == module->Err_0
                } else if pin is Err {
                    e == pin->Err_0
                } else if log is Err {
                    e == log->Err_0
                } else if label is Err {
                    e == label->Err_0
                } else if most is Err {
                    e == most->Err_0
                } else {
                    warn is Err && e == warn->Err_0
                }
            }
        }),
{
    reveal_with_fuel(first_missing, 10);
}

/// Every setting is the value of its own variable, unchanged.
pub proof fn law_settings_are_their_variables(cfg: EnvConfig, vars: Seq<(Seq<char>, Lookup)>)
    requires
        reflects(cfg, vars),
    ensures
        value_of(vars, "GATEWAY_LISTEN_ADDR"@) == Ok::<Seq<char>, Seq<char>>(cfg.listen_addr@),
        value_of(vars, "GATEWAY_SERVER_CERT"@) == Ok::<Seq<char>, Seq<char>>(cfg.server_cert@),
        value_of(vars, "GATEWAY_SERVER_KEY"@) == Ok::<Seq<char>, Seq<char>>(cfg.server_key@),
        value_of(vars, "GATEWAY_CLIENT_CA"@) == Ok::<Seq<char>, Seq<char>>(cfg.client_ca@),
        value_of(vars, "GATEWAY_CLIENTS_CONFIG"@) == Ok::<Seq<char>, Seq<char>>(
            cfg.clients_config@,
        ),
        value_of(vars, "GATEWAY_PKCS11_MODULE"@) == Ok::<Seq<char>, Seq<char>>(cfg.pkcs11_module@),
        value_of(vars, "GATEWAY_HSM_PIN"@) == Ok::<Seq<char>, Seq<char>>(cfg.hsm_pin@),
        value_of(vars, "GATEWAY_AUDIT_LOG"@) == Ok::<Seq<char>, Seq<char>>(cfg.audit_log@),
        value_of(vars, "GATEWAY_INTEGRITY_KEY_LABEL"@) == Ok::<Seq<char>, Seq<char>>(
            cfg.integrity_key_label@,
        ),
        days(vars, "GATEWAY_MAX_CLIENT_CERT_VALIDITY_DAYS"@, 90) == Ok::<int, EnvErrorModel>(
            cfg.max_client_cert_validity_days as int,
        ),
        days(vars, "GATEWAY_CERT_EXPIRY_WARN_DAYS"@, 14) == Ok::<int, EnvErrorModel>(
            cfg.cert_expiry_warn_days as int,
        ),
{
}

/// The words for an error name the variable, and the value where it is no integer; the
/// cause is kept.
pub proof fn law_settings_errors_have_their_words(
    name: Seq<char>,
    value: Seq<char>,
    cause: Seq<char>,
    fault: IntegerFault,
)
    ensures
        env_error_words(EnvErrorModel::NotSet { name, cause }) == "environment variable "@ + name
            + " is not set"@,
        env_error_cause(EnvErrorModel::NotSet { name, cause }) == cause,
        env_error_words(EnvErrorModel::NotDays { name, value, fault }) == name
            + " must be an integer (days), was "@ + debug_quoted(value),
        env_error_cause(EnvErrorModel::NotDays { name, value, fault }) == integer_fault_words(
            fault,
        ),
        integer_fault_words(IntegerFault::Empty) == "cannot parse integer from empty string"@,
        integer_fault_words(IntegerFault::InvalidDigit) == "invalid digit found in string"@,
        integer_fault_words(IntegerFault::TooLarge) == "number too large to fit in target type"@,
        integer_fault_words(IntegerFault::TooSmall) == "number too small to fit in target type"@,
{
}

/// What the models say of lookups and errors is what these hold.
pub proof fn law_lookup_models_are_faithful(
    vars: Seq<(String, Result<String, String>)>,
    e: EnvError,
)
    ensures
        variables(vars).len() == vars.len(),
        forall|i: int|
            #![trigger variables(vars)[i]]
            0 <= i < vars.len() ==> variables(vars)[i].0 == vars[i].0@ && match vars[i].1 {
                Ok(value) => variables(vars)[i].1 == Ok::<Seq<char>, Seq<char>>(value@),
                Err(cause) => variables(vars)[i].1 == Err::<Seq<char>, Seq<char>>(cause@),
            },
        match e {
            EnvError::NotSet { name, cause } => e@ == (EnvErrorModel::NotSet {
                name: name@,
                cause: cause@,
            }),
            EnvError::NotDays { name, value, fault } => e@ == (EnvErrorModel::NotDays {
                name: name@,
                value: value@,
                fault,
            }),
        },
{
}

} // verus!
