//! List endpoints' paging and sorting parameters.
use vstd::prelude::*;
use crate::error::{ApiError, bad_request_chars};
use crate::text::{chars_to_string, push_str, str_chars};
use crate::value::str_eq;

verus! {

/// Page size when none is asked for.
pub const DEFAULT_PAGE_SIZE: u64 = 25;

/// Largest page size served.
pub const MAX_PAGE_SIZE: u64 = 200;

/// Paging and sorting query parameters of a list endpoint.
pub struct PageParams {
    pub page: Option<u64>,
    pub page_size: Option<u64>,
    pub sort: Option<String>,
}

/// One page of a list, with the total count of matching records.
pub struct Paginated<T> {
    pub data: Vec<T>,
    pub total: u64,
    pub page: u64,
    pub page_size: u64,
}

/// A sort order on one field: direction 1 ascending, -1 descending.
pub struct SortSpec {
    pub field: String,
    pub direction: i32,
}

/// The page asked for: page number (from 1), its size, and how many
/// records come before it.
pub struct PageWindow {
    pub page: u64,
    pub page_size: u64,
    pub skip: u64,
}

/// The page number served: the one asked for, at least 1 (1 when absent).
pub open spec fn page_number(p: Option<u64>) -> u64 {
    match p {
        Some(n) => if n < 1 { 1 } else { n },
        None => 1,
    }
}

/// The page size served: the one asked for clamped to 1..=200 (25 when
/// absent).
pub open spec fn page_size_of(s: Option<u64>) -> u64 {
    match s {
        Some(n) => if n < 1 { 1 } else if n > MAX_PAGE_SIZE { MAX_PAGE_SIZE } else { n },
        None => DEFAULT_PAGE_SIZE,
    }
}

impl PageParams {
    /// Whether the window's record offset fits in 64 bits.
    pub open spec fn window_fits(&self) -> bool {
        (page_number(self.page) - 1) * page_size_of(self.page_size) <= u64::MAX
    }

    /// The page window the parameters ask for.
    pub fn window(&self) -> (w: PageWindow)
        requires
            self.window_fits(),
        ensures
            w.page == page_number(self.page),
            w.page_size == page_size_of(self.page_size),
            w.skip == (w.page - 1) * w.page_size,
            w.page >= 1,
            1 <= w.page_size <= MAX_PAGE_SIZE,
    {
        let page = match self.page {
            Some(n) => if n < 1 { 1 } else { n },
            None => 1,
        };
        let page_size = match self.page_size {
            Some(n) => if n < 1 { 1 } else if n > MAX_PAGE_SIZE { MAX_PAGE_SIZE } else { n },
            None => DEFAULT_PAGE_SIZE,
        };
        PageWindow { page, page_size, skip: (page - 1) * page_size }
    }

    /// Whether the window's record offset fits in 64 bits (the condition
    /// `window` needs).
    pub fn fits(&self) -> (r: bool)
        ensures
            r == self.window_fits(),
    {
        let page = match self.page {
            Some(n) => if n < 1 { 1 } else { n },
            None => 1,
        };
        let page_size = match self.page_size {
            Some(n) => if n < 1 { 1 } else if n > MAX_PAGE_SIZE { MAX_PAGE_SIZE } else { n },
            None => DEFAULT_PAGE_SIZE,
        };
        proof {
            let a = (page - 1) as int;
            let b = page_size as int;
            assert(b > 0);
            assert((a <= u64::MAX as int / b) <==> (a * b <= u64::MAX as int)) by (nonlinear_arith)
                requires
                    b > 0,
                    a >= 0,
            {
                if a <= u64::MAX as int / b {
                    assert(a * b <= (u64::MAX as int / b) * b);
                } else {
                    assert(a >= u64::MAX as int / b + 1);
                    assert(a * b >= (u64::MAX as int / b + 1) * b);
                }
            }
        }
        (page - 1) <= u64::MAX / page_size
    }
}

impl<T> Paginated<T> {
    /// A page of `data` out of `total` matching records.
    pub fn new(data: Vec<T>, total: u64, w: &PageWindow) -> (p: Paginated<T>)
        ensures
            p.data == data,
            p.total == total,
            p.page == w.page,
            p.page_size == w.page_size,
    {
        Paginated { data, total, page: w.page, page_size: w.page_size }
    }
}

/// The field and direction a `sort` parameter asks for: `-field` is
/// descending, `field` ascending, absent is the default field ascending.
pub open spec fn requested_sort(sort: Option<Seq<char>>, default_field: Seq<char>) -> (Seq<char>, i32) {
    match sort {
        Some(s) => if s.len() > 0 && s[0] == '-' {
            (s.subrange(1, s.len() as int), -1i32)
        } else {
            (s, 1i32)
        },
        None => (default_field, 1i32),
    }
}

/// View of an optional string.
pub open spec fn opt_string_view(s: Option<String>) -> Option<Seq<char>> {
    match s {
        Some(x) => Some(x@),
        None => None,
    }
}

/// Parses a list's `sort` parameter against its whitelist of sortable
/// fields; a field outside the whitelist is a 400 `cannot sort by 'f'`,
/// never silently ignored.
pub fn parse_sort(sort: &Option<String>, allowed: &[&str], default_field: &str) -> (r: Result<SortSpec, ApiError>)
    ensures
        ({
            let (field, dir) = requested_sort(opt_string_view(*sort), default_field@);
            &&& r is Ok <==> exists|i: int| 0 <= i < allowed@.len() && (#[trigger] allowed@[i])@ == field
            &&& r matches Ok(spec) ==> spec.field@ == field && spec.direction == dir
            &&& r matches Err(e) ==> (e matches ApiError::BadRequest(m) && m@ == "cannot sort by '"@ + field + "'"@)
        }),
{
    let ghost req = requested_sort(opt_string_view(*sort), default_field@);
    let (field, dir): (Vec<char>, i32) = match sort {
        Some(s) => {
            let cs = str_chars(s.as_str());
            if cs.len() > 0 && cs[0] == '-' {
                let mut rest: Vec<char> = Vec::new();
                let mut i: usize = 1;
                while i < cs.len()
                    invariant
                        1 <= i <= cs.len(),
                        rest@ == cs@.subrange(1, i as int),
                    decreases cs.len() - i,
                {
                    rest.push(cs[i]);
                    i = i + 1;
                    assert(cs@.subrange(1, i as int) =~= cs@.subrange(1, i - 1).push(cs@[i - 1]));
                }
                (rest, -1)
            } else {
                (cs, 1)
            }
        },
        None => (str_chars(default_field), 1),
    };
    assert(field@ == req.0 && dir == req.1);
    let field_s = chars_to_string(&field);
    let mut i: usize = 0;
    while i < allowed.len()
        invariant
            i <= allowed@.len(),
            field_s@ == field@,
            req == requested_sort(opt_string_view(*sort), default_field@),
            field@ == req.0,
            dir == req.1,
            forall|j: int| 0 <= j < i ==> (#[trigger] allowed@[j])@ != field@,
        decreases allowed.len() - i,
    {
        let a: &str = allowed[i];
        assert(a == allowed@[i as int]);
        if str_eq(a, field_s.as_str()) {
            assert((allowed@[i as int])@ == field@);
            return Ok(SortSpec { field: field_s, direction: dir });
        }
        i = i + 1;
    }
    let mut msg = str_chars("cannot sort by '");
    push_str(&mut msg, field_s.as_str());
    push_str(&mut msg, "'");
    Err(bad_request_chars(&msg))
}

} // verus!
