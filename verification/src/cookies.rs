use vstd::prelude::*;
use crate::key_value::KeyValue;
use crate::key_value::KeyValueView;
use crate::key_value::views;

verus! {

/// One cookie that a response has set.
#[derive(Debug)]
pub struct Cookie {
    pub name: String,
    pub value: String,
}

/// What a [`Cookie`] holds.
#[verifier::ext_equal]
pub struct CookieView {
    pub name: Seq<char>,
    pub value: Seq<char>,
}

impl View for Cookie {
    type V = CookieView;

    open spec fn view(&self) -> CookieView {
        CookieView { name: self.name@, value: self.value@ }
    }
}

impl Clone for Cookie {
    fn clone(&self) -> (copy: Cookie)
        ensures
            copy@ == self@,
    {
        Cookie { name: self.name.clone(), value: self.value.clone() }
    }
}

/// The cookies gathered so far, in the order in which the jar hands them out.
#[derive(Debug)]
pub struct CookieJar {
    pub cookies: Vec<Cookie>,
}

impl View for CookieJar {
    type V = Seq<CookieView>;

    open spec fn view(&self) -> Seq<CookieView> {
        views(self.cookies@)
    }
}

/// The table row that shows a cookie: enabled, the name as key, the value as value.
pub open spec fn row_of(cookie: CookieView) -> KeyValueView {
    KeyValueView { enabled: true, key: cookie.name, value: cookie.value }
}

/// One row per cookie, in the jar's order.
pub open spec fn rows_of(cookies: Seq<CookieView>) -> Seq<KeyValueView> {
    Seq::new(cookies.len(), |i: int| row_of(cookies[i]))
}

impl CookieJar {
    pub fn new() -> (jar: CookieJar)
        ensures
            jar@ == Seq::<CookieView>::empty(),
    {
        let jar = CookieJar { cookies: Vec::new() };
        assert(jar@ =~= Seq::<CookieView>::empty());
        jar
    }

    /// The jar as a flat table: one enabled row per cookie, in the jar's order.
    pub fn rows(&self) -> (rows: Vec<KeyValue>)
        ensures
            views(rows@) == rows_of(self@),
    {
        let mut rows: Vec<KeyValue> = Vec::new();
        let mut i: usize = 0;
        while i < self.cookies.len()
            invariant
                i <= self.cookies.len(),
                rows.len() == i,
                forall|k: int| 0 <= k < i ==> rows[k]@ == row_of(#[trigger] self.cookies[k]@),
            decreases self.cookies.len() - i,
        {
            let cookie = &self.cookies[i];
            rows.push(KeyValue { enabled: true, data: (cookie.name.clone(), cookie.value.clone()) });
            i += 1;
        }
        assert(views(rows@) =~= rows_of(self@));
        rows
    }
}

impl Clone for CookieJar {
    fn clone(&self) -> (copy: CookieJar)
        ensures
            copy@ == self@,
    {
        let mut cookies: Vec<Cookie> = Vec::new();
        let mut i: usize = 0;
        while i < self.cookies.len()
            invariant
                i <= self.cookies.len(),
                cookies.len() == i,
                forall|k: int| 0 <= k < i ==> cookies[k]@ == self.cookies[k]@,
            decreases self.cookies.len() - i,
        {
            cookies.push(self.cookies[i].clone());
            i += 1;
        }
        let copy = CookieJar { cookies };
        assert(copy@ =~= self@);
        copy
    }
}

} // verus!
