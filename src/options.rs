//! Search and paging criteria, and their rendering as a query string.

use vstd::prelude::*;
use vstd::string::*;

verus! {

/// The query parameters that a search may carry.
#[derive(Clone, Copy, Debug, PartialEq, Eq, Structural)]
pub enum Param {
    Expand,
    Fields,
    Jql,
    MaxResults,
    Name,
    ProjectKeyOrId,
    StartAt,
    State,
    TypeName,
    Validate,
}

/// The name of a parameter as it appears on the wire.
pub open spec fn param_name(p: Param) -> Seq<char> {
    match p {
        Param::Expand => "expand"@,
        Param::Fields => "fields"@,
        Param::Jql => "jql"@,
        Param::MaxResults => "maxResults"@,
        Param::Name => "name"@,
        Param::ProjectKeyOrId => "projectKeyOrId"@,
        Param::StartAt => "startAt"@,
        Param::State => "state"@,
        Param::TypeName => "type"@,
        Param::Validate => "validateQuery"@,
    }
}

impl Param {
    pub fn name(&self) -> (r: &'static str)
        ensures
            r@ == param_name(*self),
    {
        match self {
            Param::Expand => "expand",
            Param::Fields => "fields",
            Param::Jql => "jql",
            Param::MaxResults => "maxResults",
            Param::Name => "name",
            Param::ProjectKeyOrId => "projectKeyOrId",
            Param::StartAt => "startAt",
            Param::State => "state",
            Param::TypeName => "type",
            Param::Validate => "validateQuery",
        }
    }
}

/// The characters of a decimal digit `d < 10`.
pub open spec fn digit_char(d: int) -> char {
    "0123456789"@[d]
}

/// The decimal rendering of `n`, without sign or leading zeros.
pub open spec fn decimal(n: nat) -> Seq<char>
    decreases n,
{
    if n < 10 {
        seq![digit_char(n as int)]
    } else {
        decimal(n / 10).push(digit_char((n % 10) as int))
    }
}

/// Renders `n` in decimal.
pub fn decimal_string(n: u64) -> (r: String)
    ensures
        r@ == decimal(n as nat),
    decreases n,
{
    let digits = "0123456789";
    proof {
        reveal_strlit("0123456789");
    }
    let d: usize = (n % 10) as usize;
    let last = digits.substring_char(d, d + 1);
    assert(last@ =~= seq![digit_char(d as int)]);
    if n < 10 {
        String::from_str(last)
    } else {
        let mut s = decimal_string(n / 10);
        s.append(last);
        assert(s@ =~= decimal(n as nat));
        s
    }
}

/// The `application/x-www-form-urlencoded` byte serialization of the UTF-8
/// encoding of `s`.
pub uninterp spec fn form_encoded(s: Seq<char>) -> Seq<char>;

/// Relies on `url::form_urlencoded::byte_serialize`, whose output is a function
/// of the input bytes alone.
#[verifier::external_body]
fn form_encode(s: &str) -> (r: String)
    ensures
        r@ == form_encoded(s@),
{
    url::form_urlencoded::byte_serialize(s.as_bytes()).collect()
}

/// Parameters as ordered (name, value) pairs.
pub type ParamsView = Seq<(Param, Seq<char>)>;

pub open spec fn has_param(s: ParamsView, key: Param) -> bool {
    exists|i: int| 0 <= i < s.len() && #[trigger] s[i].0 == key
}

/// `s` with `key` set to `value`: an existing entry is overwritten in place,
/// a new one goes last.
pub open spec fn set_param(s: ParamsView, key: Param, value: Seq<char>) -> ParamsView {
    if has_param(s, key) {
        s.map_values(|p: (Param, Seq<char>)| set_entry(p, key, value))
    } else {
        s.push((key, value))
    }
}

/// An entry after setting `key` to `value`.
pub open spec fn set_entry(p: (Param, Seq<char>), key: Param, value: Seq<char>) -> (Param, Seq<char>) {
    if p.0 == key {
        (key, value)
    } else {
        p
    }
}

/// No parameter occurs twice.
pub open spec fn unique_params(s: ParamsView) -> bool {
    forall|i: int, j: int| 0 <= i < j < s.len() ==> #[trigger] s[i].0 != #[trigger] s[j].0
}

/// `name=value` of one parameter, both sides form-encoded.
pub open spec fn pair_query(p: (Param, Seq<char>)) -> Seq<char> {
    form_encoded(param_name(p.0)) + "="@ + form_encoded(p.1)
}

/// The query string of a parameter list: its pairs joined by `&`.
pub open spec fn query_of(s: ParamsView) -> Seq<char>
    decreases s.len(),
{
    if s.len() == 0 {
        Seq::empty()
    } else if s.len() == 1 {
        pair_query(s[0])
    } else {
        query_of(s.drop_last()) + "&"@ + pair_query(s.last())
    }
}

/// Filter and paging criteria of a search. A value is never changed in
/// place: each setter returns a new one.
#[derive(Debug)]
pub struct SearchOptions {
    params: Vec<(Param, String)>,
}

impl Clone for SearchOptions {
    fn clone(&self) -> (r: SearchOptions)
        ensures
            r@ == self@,
    {
        let mut params: Vec<(Param, String)> = Vec::new();
        let mut i: usize = 0;
        while i < self.params.len()
            invariant
                i <= self.params@.len(),
                params@.len() == i,
                forall|j: int|
                    0 <= j < i ==> (#[trigger] params@[j].0, params@[j].1@) == (
                    self.params@[j].0,
                    self.params@[j].1@,
                ),
            decreases self.params@.len() - i,
        {
            params.push((self.params[i].0, self.params[i].1.clone()));
            i = i + 1;
        }
        let r = SearchOptions { params };
        assert(r@ =~= self@);
        r
    }
}

impl View for SearchOptions {
    type V = ParamsView;

    closed spec fn view(&self) -> ParamsView {
        self.params@.map_values(|p: (Param, String)| (p.0, p.1@))
    }
}

impl SearchOptions {
    /// Options with no parameter set.
    pub fn new() -> (r: SearchOptions)
        ensures
            r@ == Seq::<(Param, Seq<char>)>::empty(),
            unique_params(r@),
    {
        let r = SearchOptions { params: Vec::new() };
        assert(r@ =~= Seq::<(Param, Seq<char>)>::empty());
        r
    }

    /// A copy of these options with `key` set to `value`.
    pub fn set(&self, key: Param, value: String) -> (r: SearchOptions)
        ensures
            r@ == set_param(self@, key, value@),
            unique_params(self@) ==> unique_params(r@),
    {
        let mut params: Vec<(Param, String)> = Vec::new();
        let mut found = false;
        let mut i: usize = 0;
        while i < self.params.len()
            invariant
                i <= self.params@.len(),
                params@.len() == i,
                forall|j: int| 0 <= j < i ==> (#[trigger] params@[j].0, params@[j].1@) == set_entry(self@[j], key, value@),
                found == (exists|j: int| 0 <= j < i && #[trigger] self@[j].0 == key),
            decreases self.params@.len() - i,
        {
            let k = self.params[i].0;
            assert(self@[i as int] == (k, self.params@[i as int].1@));
            if k == key {
                params.push((key, value.clone()));
                found = true;
            } else {
                params.push((k, self.params[i].1.clone()));
            }
            assert((params@[i as int].0, params@[i as int].1@) == set_entry(self@[i as int], key, value@));
            i = i + 1;
        }
        if !found {
            params.push((key, value));
        }
        let r = SearchOptions { params };
        proof {
            if found {
                assert(has_param(self@, key));
                assert(r@ =~= self@.map_values(|p: (Param, Seq<char>)| set_entry(p, key, value@)));
            } else {
                assert(!has_param(self@, key));
                assert(r@ =~= self@.push((key, value@)));
            }
        }
        r
    }

    /// A copy of these options asking for pages of `n` items.
    pub fn max_results(&self, n: u64) -> (r: SearchOptions)
        ensures
            r@ == set_param(self@, Param::MaxResults, decimal(n as nat)),
            unique_params(self@) ==> unique_params(r@),
    {
        self.set(Param::MaxResults, decimal_string(n))
    }

    /// A copy of these options asking for the page that begins at offset `n`.
    pub fn start_at(&self, n: u64) -> (r: SearchOptions)
        ensures
            r@ == set_param(self@, Param::StartAt, decimal(n as nat)),
            unique_params(self@) ==> unique_params(r@),
    {
        self.set(Param::StartAt, decimal_string(n))
    }

    /// A copy of these options asking for the page of `max_results` items that
    /// begins at offset `start_at`; every other criterion is kept.
    pub fn with_page(&self, start_at: u64, max_results: u64) -> (r: SearchOptions)
        ensures
            r@ == with_page_params(self@, start_at as nat, max_results as nat),
            unique_params(self@) ==> unique_params(r@),
    {
        self.max_results(max_results).start_at(start_at)
    }

    /// The form-urlencoded query string of these options, pairs in order and
    /// joined by `&`; empty when no parameter is set.
    pub fn serialize(&self) -> (r: String)
        ensures
            r@ == query_of(self@),
    {
        let mut out = String::new();
        let mut i: usize = 0;
        while i < self.params.len()
            invariant
                i <= self.params@.len(),
                out@ == query_of(self@.take(i as int)),
            decreases self.params@.len() - i,
        {
            let (k, v) = (self.params[i].0, &self.params[i].1);
            if i > 0 {
                out.append("&");
            }
            let name = form_encode(k.name());
            let value = form_encode(v.as_str());
            out.append(name.as_str());
            out.append("=");
            out.append(value.as_str());
            proof {
                reveal_strlit("&");
                reveal_strlit("=");
                let t = self@.take(i as int + 1);
                assert(t.drop_last() =~= self@.take(i as int));
                assert(t.last() == self@[i as int]);
                assert(i == 0 ==> self@.take(i as int) =~= Seq::<(Param, Seq<char>)>::empty());
            }
            i = i + 1;
        }
        assert(self@.take(i as int) =~= self@);
        out
    }
}

/// Parameters after asking for the page of `max_results` items at `start_at`.
pub open spec fn with_page_params(s: ParamsView, start_at: nat, max_results: nat) -> ParamsView {
    set_param(set_param(s, Param::MaxResults, decimal(max_results)), Param::StartAt, decimal(start_at))
}

} // verus!
