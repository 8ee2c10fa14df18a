use vstd::prelude::*;
use crate::text::{join3, to_uppercase, uppercase_of};

pub mod history;

verus! {

/// A currency: its code in upper case and, where known, its name.
#[derive(Debug, Clone, PartialEq)]
pub struct Currency {
    code: String,
    name: Option<String>,
}

/// What a `Currency` holds, as mathematical values.
pub struct CurrencyView {
    pub code: Seq<char>,
    pub name: Option<Seq<char>>,
}

impl View for Currency {
    type V = CurrencyView;

    closed spec fn view(&self) -> CurrencyView {
        CurrencyView {
            code: self.code@,
            name: match self.name {
                Some(n) => Some(n@),
                None => None,
            },
        }
    }
}

/// The view of a currency that may be absent.
pub open spec fn partition_view(currency: Option<Currency>) -> Option<CurrencyView> {
    match currency {
        Some(c) => Some(c@),
        None => None,
    }
}

impl CurrencyView {
    /// The name to show: the name itself, or the code where there is none.
    pub open spec fn shown_name(self) -> Seq<char> {
        match self.name {
            Some(n) => n,
            None => self.code,
        }
    }
}

impl Currency {
    /// A currency without a name, its code put in upper case.
    pub fn new_from_code(code: String) -> (r: Currency)
        ensures
            r@.code == uppercase_of(code@),
            r@.name is None,
    {
        Currency { code: to_uppercase(code.as_str()), name: None }
    }

    /// A currency with exactly the given code and name.
    pub fn from_parts(code: String, name: Option<String>) -> (r: Currency)
        ensures
            r@.code == code@,
            r@.name == (match name {
                Some(n) => Some(n@),
                None => None,
            }),
    {
        Currency { code, name }
    }

    /// The code of the currency.
    pub fn get_code(&self) -> (r: &String)
        ensures
            r@ == self@.code,
    {
        &self.code
    }

    /// The name of the currency, or its code where it has no name.
    pub fn get_name(&self) -> (r: &String)
        ensures
            r@ == self@.shown_name(),
    {
        match &self.name {
            Some(n) => n,
            None => &self.code,
        }
    }

    /// A copy with the same code and name.
    pub fn duplicate(&self) -> (r: Currency)
        ensures
            r@ == self@,
    {
        let name = match &self.name {
            Some(n) => Some(n.clone()),
            None => None,
        };
        Currency { code: self.code.clone(), name }
    }
}

/// The rate that was found for the target currency, or the report that there is none.
pub fn get_rate<T>(found: Option<T>, target_currency: &Currency) -> (r: Result<T, String>)
    ensures
        match found {
            Some(rate) => r == Ok::<T, String>(rate),
            None => r is Err && r->Err_0@ == "Exchange rate for "@ + target_currency@.code
                + " not found"@,
        },
{
    match found {
        Some(rate) => Ok(rate),
        None => Err(join3("Exchange rate for ", target_currency.get_code().as_str(), " not found")),
    }
}

/// The position of the first result that is a failure: the rates of all currencies are had
/// only where there is none.
pub fn first_failure<T>(results: &Vec<Result<T, String>>) -> (r: Option<usize>)
    ensures
        match r {
            Some(i) => i < results@.len() && results@[i as int] is Err && forall|j: int|
                0 <= j < i ==> #[trigger] results@[j] is Ok,
            None => forall|j: int| 0 <= j < results@.len() ==> #[trigger] results@[j] is Ok,
        },
{
    let mut i: usize = 0;
    while i < results.len()
        invariant
            i <= results.len(),
            forall|j: int| 0 <= j < i ==> #[trigger] results@[j] is Ok,
        decreases results.len() - i,
    {
        if results[i].is_err() {
            return Some(i);
        }
        i += 1;
    }
    None
}

} // verus!
