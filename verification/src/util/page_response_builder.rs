use vstd::prelude::*;

verus! {

/// Integer division rounded toward zero, as Rust's `/` on signed integers computes it.
pub open spec fn trunc_div(a: int, b: int) -> int {
    let q = abs(a) / abs(b);
    if (a >= 0) == (b > 0) {
        q
    } else {
        -q
    }
}

pub open spec fn abs(a: int) -> int {
    if a < 0 {
        -a
    } else {
        a
    }
}

/// `a / b` on `i32`, the way Rust evaluates it.
fn div_i32(a: i32, b: i32) -> (q: i32)
    requires
        b != 0,
        !(a == i32::MIN && b == -1),
    ensures
        q == trunc_div(a as int, b as int),
{
    let wa = a as i64;
    let wb = b as i64;
    let ua: i64 = if wa < 0 { -wa } else { wa };
    let ub: i64 = if wb < 0 { -wb } else { wb };
    let q = ua / ub;
    assert(q * ub <= ua && q >= 0) by (nonlinear_arith)
        requires
            ub >= 1,
            ua >= 0,
            q == ua / ub,
    ;
    assert(q <= ua) by (nonlinear_arith)
        requires
            ub >= 1,
            q >= 0,
            q * ub <= ua,
    ;
    assert(q == ua ==> ub == 1 || q == 0) by (nonlinear_arith)
        requires
            ub >= 1,
            q >= 0,
            q * ub <= ua,
    ;
    if (wa >= 0) == (wb > 0) {
        q as i32
    } else {
        (-q) as i32
    }
}

/// Index of the first item of `page` (1-based) when pages hold `page_size` items,
/// as the `usize` that `((page - 1) * page_size) as usize` gives.
pub open spec fn page_start(page: i32, page_size: i32) -> int {
    ((((page - 1) * page_size) as i32) as usize) as int
}

/// One past the last item of `page`: `min(start + page_size as usize, len)`.
pub open spec fn page_end(page: i32, page_size: i32, len: int) -> int {
    let e = page_start(page, page_size) + ((page_size as usize) as int);
    if e < len {
        e
    } else {
        len
    }
}

/// `len as i32`, the item count that a listing reports.
pub open spec fn total_items(len: int) -> i32 {
    len as i32
}

/// `(total_items + page_size - 1) / page_size`.
pub open spec fn total_pages(len: int, page_size: i32) -> int {
    trunc_div(total_items(len) + page_size - 1, page_size as int)
}

/// The inputs on which a page can be cut out of `len` items without a panic: no
/// arithmetic overflow, a slice range that exists, and a non-zero divisor.
pub open spec fn page_request_ok(page: i32, page_size: i32, len: int) -> bool {
    let t = total_items(len) as int;
    &&& page > i32::MIN
    &&& i32::MIN <= (page - 1) * page_size <= i32::MAX
    &&& page_start(page, page_size) + ((page_size as usize) as int) <= usize::MAX
    &&& page_start(page, page_size) <= len
    &&& page_size != 0
    &&& i32::MIN <= t + page_size <= i32::MAX
    &&& i32::MIN <= t + page_size - 1 <= i32::MAX
    &&& !(t + page_size - 1 == i32::MIN && page_size == -1)
}

/// Whether `page_response_builder` can answer these inputs (see `page_request_ok`).
pub fn page_request_valid(page: i32, page_size: i32, len: usize) -> (ok: bool)
    ensures
        ok == page_request_ok(page, page_size, len as int),
{
    if page == i32::MIN {
        return false;
    }
    let p = (page as i64) - 1;
    let q = page_size as i64;
    assert(-0x8000_0000_0000_0000 < p * q < 0x8000_0000_0000_0000) by (nonlinear_arith)
        requires
            -0x8000_0001 <= p <= 0x7fff_ffff,
            -0x8000_0000 <= q <= 0x7fff_ffff,
    ;
    let s = p * q;
    if s < -0x8000_0000 || s > 0x7fff_ffff {
        return false;
    }
    let start = (s as i32) as usize;
    let step = page_size as usize;
    if start > usize::MAX - step {
        return false;
    }
    if start > len {
        return false;
    }
    if page_size == 0 {
        return false;
    }
    let t = (len as i32) as i64;
    let a = t + q;
    if a < -0x8000_0000 || a > 0x7fff_ffff {
        return false;
    }
    let b = a - 1;
    if b < -0x8000_0000 || b > 0x7fff_ffff {
        return false;
    }
    if b == -0x8000_0000 && page_size == -1 {
        return false;
    }
    true
}

/// The items of one page of a listing, with the numbers a client pages by.
pub struct PageResponse<'a, T> {
    pub data: &'a [T],
    pub page: i32,
    pub page_size: i32,
    pub total_items: i32,
    pub total_pages: i32,
}

/// A page of a listing together with some other data that goes with it.
pub struct PageExtraResponse<'a, T, E> {
    pub page: PageResponse<'a, T>,
    pub extra_data: E,
}

/// The items on `page` (1-based) of `data` when pages hold `page_size` items.
pub open spec fn page_items<T>(data: Seq<T>, page: i32, page_size: i32) -> Seq<T> {
    data.subrange(page_start(page, page_size), page_end(page, page_size, data.len() as int))
}

/// What `page_response_builder` answers for these inputs.
pub open spec fn is_page_of<T>(r: PageResponse<T>, page: i32, page_size: i32, data: Seq<T>) -> bool {
    &&& r.data@ == page_items(data, page, page_size)
    &&& r.page == page
    &&& r.page_size == page_size
    &&& r.total_items == total_items(data.len() as int)
    &&& r.total_pages == total_pages(data.len() as int, page_size)
}

/// Cuts page `page` (1-based) of `page_size` items out of `data`, and counts the items
/// and the pages.
pub fn page_response_builder<'a, T>(page: i32, page_size: i32, data: &'a [T]) -> (r: PageResponse<
    'a,
    T,
>)
    requires
        page_request_ok(page, page_size, data@.len() as int),
    ensures
        is_page_of(r, page, page_size, data@),
{
    let start = ((page - 1) * page_size) as usize;
    let wanted = start + page_size as usize;
    let end = if wanted < data.len() {
        wanted
    } else {
        data.len()
    };
    let paginated_list = vstd::slice::slice_subrange(data, start, end);
    let total_items = data.len() as i32;
    let total_pages = div_i32(total_items + page_size - 1, page_size);
    PageResponse { data: paginated_list, page, page_size, total_items, total_pages }
}

/// The same page as `page_response_builder`, with `extra_data` attached.
pub fn page_response_extra_builder<'a, T, E>(
    page: i32,
    page_size: i32,
    data: &'a [T],
    extra_data: E,
) -> (r: PageExtraResponse<'a, T, E>)
    requires
        page_request_ok(page, page_size, data@.len() as int),
    ensures
        is_page_of(r.page, page, page_size, data@),
        r.extra_data == extra_data,
{
    PageExtraResponse { page: page_response_builder(page, page_size, data), extra_data }
}


/// Pages `1..=n` of `data`, one after the other.
pub open spec fn pages_joined<T>(data: Seq<T>, page_size: i32, n: nat) -> Seq<T>
    decreases n,
{
    if n == 0 {
        Seq::empty()
    } else {
        pages_joined(data, page_size, (n - 1) as nat) + page_items(data, n as i32, page_size)
    }
}

proof fn lemma_page_bounds(len: int, ps: int, k: int, t: int)
    by (nonlinear_arith)
    requires
        ps > 0,
        len >= 0,
        t == (len + ps - 1) / ps,
        1 <= k <= t,
    ensures
        0 <= (k - 1) * ps < len,
        k * ps == (k - 1) * ps + ps,
        k < t ==> k * ps < len,
        t * ps >= len,
        t >= 0,
{
}

proof fn lemma_total_pages_nonneg(len: int, ps: int, t: int)
    by (nonlinear_arith)
    requires
        ps > 0,
        len >= 0,
        t == (len + ps - 1) / ps,
    ensures
        t >= 0,
        t * ps >= len,
        len == 0 ==> t == 0,
        t <= len + ps,
{
}

proof fn lemma_pages_joined_prefix<T>(data: Seq<T>, page_size: i32, k: nat)
    requires
        page_size > 0,
        data.len() + page_size <= i32::MAX,
        k <= total_pages(data.len() as int, page_size),
    ensures
        pages_joined(data, page_size, k) =~= data.take(
            if k * page_size < data.len() { k * page_size } else { data.len() as int },
        ),
    decreases k,
{
    let len = data.len() as int;
    let ps = page_size as int;
    let t = total_pages(len, page_size);
    assert(total_items(len) as int == len);
    assert(len + ps - 1 >= 0);
    assert(t == (len + ps - 1) / ps);
    if k == 0 {
        assert(k * page_size == 0) by (nonlinear_arith)
            requires
                k == 0,
        ;
        assert(data.take(0) =~= Seq::<T>::empty());
    } else {
        lemma_pages_joined_prefix(data, page_size, (k - 1) as nat);
        lemma_page_bounds(len, ps, k as int, t);
        let s = (k - 1) * ps;
        lemma_total_pages_nonneg(len, ps, t);
        assert((k as i32) as int == k);
        assert(((k - 1) as nat) * page_size == s);
        assert(pages_joined(data, page_size, (k - 1) as nat) =~= data.take(s));
        assert(page_start(k as i32, page_size) == s);
        assert((page_size as usize) as int == ps);
        let e = if k * ps < len { k * ps } else { len };
        assert(page_end(k as i32, page_size, len) == e);
        assert(data.take(s) + data.subrange(s, e) =~= data.take(e));
        assert(pages_joined(data, page_size, k) == pages_joined(data, page_size, (k - 1) as nat)
            + page_items(data, k as i32, page_size));
        assert(k * page_size == k * ps);
    }
}

/// Paging covers a listing exactly: reading pages `1` to `total_pages` in order, each
/// cut out as `page_response_builder` cuts it, gives back every item once and in
/// order; each of those requests is one that the builder answers; no page but the
/// last holds fewer than `page_size` items, and the last holds from 1 to `page_size`;
/// `total_pages` is the least number of pages of `page_size` items that holds the
/// listing (none for an empty one).
pub proof fn lemma_pages_cover_listing<T>(data: Seq<T>, page_size: i32)
    requires
        page_size > 0,
        data.len() + page_size <= i32::MAX,
    ensures
        total_pages(data.len() as int, page_size) >= 0,
        total_pages(data.len() as int, page_size) * page_size >= data.len(),
        total_pages(data.len() as int, page_size) > 0 ==> (total_pages(data.len() as int, page_size)
            - 1) * page_size < data.len(),
        data.len() == 0 ==> total_pages(data.len() as int, page_size) == 0,
        data.len() > 0 ==> 1 <= page_items(
            data,
            total_pages(data.len() as int, page_size) as i32,
            page_size,
        ).len() <= page_size,
        pages_joined(data, page_size, total_pages(data.len() as int, page_size) as nat) =~= data,
        forall|p: i32|
            1 <= p <= total_pages(data.len() as int, page_size) ==> #[trigger] page_request_ok(
                p,
                page_size,
                data.len() as int,
            ),
        forall|p: i32|
            1 <= p < total_pages(data.len() as int, page_size) ==> #[trigger] page_items(
                data,
                p,
                page_size,
            ).len() == page_size,
{
    let len = data.len() as int;
    let ps = page_size as int;
    let t = total_pages(len, page_size);
    assert(total_items(len) as int == len);
    assert(t == (len + ps - 1) / ps);
    lemma_total_pages_nonneg(len, ps, t);
    lemma_pages_joined_prefix(data, page_size, t as nat);
    assert(data.take(len) =~= data);
    assert forall|p: i32| 1 <= p <= t implies #[trigger] page_request_ok(p, page_size, len) by {
        lemma_page_bounds(len, ps, p as int, t);
        assert(page_start(p, page_size) == (p - 1) * ps);
    }
    assert forall|p: i32| 1 <= p < t implies #[trigger] page_items(data, p, page_size).len()
        == page_size by {
        lemma_page_bounds(len, ps, p as int, t);
        assert(page_start(p, page_size) == (p - 1) * ps);
        assert(page_end(p, page_size, len) == p * ps);
    }
    if len > 0 {
        lemma_page_bounds(len, ps, t, t);
        assert((t as i32) as int == t);
        assert(page_start(t as i32, page_size) == (t - 1) * ps);
        assert(page_end(t as i32, page_size, len) == len);
    }
}

/// A request for a page from the first on, with a positive size, whose first item lies
/// within the listing or right after its end, is answered whenever the item count plus
/// the page size stays within `i32`; the page then holds the items from
/// `(page - 1) * page_size` on, at most `page_size` of them. In particular page 1 of an
/// empty listing is answered, with an empty page.
pub proof fn lemma_pages_in_range_are_answered<T>(data: Seq<T>, page: i32, page_size: i32)
    requires
        page >= 1,
        page_size > 0,
        (page - 1) * page_size <= data.len(),
        data.len() + page_size <= i32::MAX,
    ensures
        page_request_ok(page, page_size, data.len() as int),
        page_items(data, page, page_size).len() <= page_size,
        forall|i: int|
            0 <= i < page_items(data, page, page_size).len() ==> #[trigger] page_items(
                data,
                page,
                page_size,
            )[i] == data[(page - 1) * page_size + i],
        data.len() == 0 ==> page_items(data, page, page_size).len() == 0,
{
    let len = data.len() as int;
    let ps = page_size as int;
    let s = (page - 1) * ps;
    assert(s >= 0) by (nonlinear_arith)
        requires
            page >= 1,
            ps > 0,
            s == (page - 1) * ps,
    ;
    assert(page_start(page, page_size) == s);
    assert((page_size as usize) as int == ps);
    assert(total_items(len) as int == len);
}

} // verus!
