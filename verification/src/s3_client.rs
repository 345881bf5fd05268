//! What is asked of the storage service and what is made of its answers.
//!
//! The types here carry, as plain values, the fields of the service's
//! requests and replies that this tool sets or reads. Sending a request is
//! the caller's business.

use vstd::prelude::*;

verus! {

/// Canned access policy that lets anyone read an object.
pub const PUBLIC_READ_ACL: &'static str = "public-read";

/// Whether the objects this tool uploads are readable by anyone.
pub const UPLOADS_ARE_PUBLIC: bool = true;

/// One page of a bucket listing, ready to be shown.
#[derive(Debug, Clone, PartialEq, Eq)]
pub struct ListResponse {
    /// Keys of the objects on this page, in the order the service gave them.
    pub objects: Vec<String>,
    /// Cursor for the page after this one, if there is one.
    pub continuation_token: Option<String>,
}

/// Mathematical value of a [`ListResponse`].
pub struct ListResponseView {
    pub objects: Seq<Seq<char>>,
    pub continuation_token: Option<Seq<char>>,
}

impl View for ListResponse {
    type V = ListResponseView;

    open spec fn view(&self) -> ListResponseView {
        ListResponseView {
            objects: self.objects.deep_view(),
            continuation_token: self.continuation_token.deep_view(),
        }
    }
}

/// A request for one page of a bucket listing.
#[derive(Debug, Clone, PartialEq, Eq)]
pub struct ListRequest {
    pub bucket: String,
    /// Largest number of keys the service may put on the page.
    pub max_keys: i64,
    /// Cursor returned with the previous page; `None` starts from the beginning.
    pub continuation_token: Option<String>,
}

/// Mathematical value of a [`ListRequest`].
pub struct ListRequestView {
    pub bucket: Seq<char>,
    pub max_keys: int,
    pub continuation_token: Option<Seq<char>>,
}

impl View for ListRequest {
    type V = ListRequestView;

    open spec fn view(&self) -> ListRequestView {
        ListRequestView {
            bucket: self.bucket@,
            max_keys: self.max_keys as int,
            continuation_token: self.continuation_token.deep_view(),
        }
    }
}

/// The fields of the service's reply to a [`ListRequest`] that this tool reads.
#[derive(Debug, Clone, PartialEq, Eq)]
pub struct ListOutput {
    /// One entry per listed object: its key, where the service named one.
    /// The service leaves the whole list out when it has nothing to report.
    pub contents: Option<Vec<Option<String>>>,
    pub next_continuation_token: Option<String>,
}

/// Mathematical value of a [`ListOutput`].
pub struct ListOutputView {
    pub contents: Option<Seq<Option<Seq<char>>>>,
    pub next_continuation_token: Option<Seq<char>>,
}

impl View for ListOutput {
    type V = ListOutputView;

    open spec fn view(&self) -> ListOutputView {
        ListOutputView {
            contents: self.contents.deep_view(),
            next_continuation_token: self.next_continuation_token.deep_view(),
        }
    }
}

/// A request to store `body` under `key`.
#[derive(Debug, Clone, PartialEq, Eq)]
pub struct PutRequest {
    pub bucket: String,
    pub key: String,
    pub body: Vec<u8>,
    /// Canned access policy, if the object is to get one.
    pub acl: Option<String>,
}

/// Mathematical value of a [`PutRequest`].
pub struct PutRequestView {
    pub bucket: Seq<char>,
    pub key: Seq<char>,
    pub body: Seq<u8>,
    pub acl: Option<Seq<char>>,
}

impl View for PutRequest {
    type V = PutRequestView;

    open spec fn view(&self) -> PutRequestView {
        PutRequestView {
            bucket: self.bucket@,
            key: self.key@,
            body: self.body@,
            acl: self.acl.deep_view(),
        }
    }
}

/// The keys in `entries` that are present, in their order.
pub open spec fn present_keys(entries: Seq<Option<Seq<char>>>) -> Seq<Seq<char>>
    decreases entries.len(),
{
    if entries.len() == 0 {
        Seq::empty()
    } else {
        let before = present_keys(entries.drop_last());
        match entries.last() {
            Some(key) => before.push(key),
            None => before,
        }
    }
}

/// The keys that a reply lists: none when the reply has no list at all.
pub open spec fn listed_keys(contents: Option<Seq<Option<Seq<char>>>>) -> Seq<Seq<char>> {
    match contents {
        Some(entries) => present_keys(entries),
        None => Seq::empty(),
    }
}

/// The page that a reply amounts to.
pub open spec fn response_of(output: ListOutputView) -> ListResponseView {
    ListResponseView {
        objects: listed_keys(output.contents),
        continuation_token: output.next_continuation_token,
    }
}

/// The canned policy a stored object gets.
pub open spec fn acl_for(make_public: bool) -> Option<Seq<char>> {
    if make_public {
        Some(PUBLIC_READ_ACL@)
    } else {
        None
    }
}

/// Builds the request for one page of at most `max_items` keys of `bucket`,
/// resuming after `continuation_token` when one is given.
pub fn list_request(bucket: &str, max_items: i64, continuation_token: Option<String>) -> (request:
    ListRequest)
    ensures
        request@ == (ListRequestView {
            bucket: bucket@,
            max_keys: max_items as int,
            continuation_token: continuation_token.deep_view(),
        }),
{
    ListRequest { bucket: bucket.to_owned(), max_keys: max_items, continuation_token }
}

/// Reads a reply: keeps, in order, the key of every listed object that has
/// one, and passes the cursor for the next page on.
pub fn list_response(output: ListOutput) -> (response: ListResponse)
    ensures
        response@ == response_of(output@),
{
    let ListOutput { contents, next_continuation_token } = output;
    let mut objects: Vec<String> = Vec::new();
    assert(objects.deep_view() =~= Seq::<Seq<char>>::empty());
    match contents {
        Some(entries) => {
            let ghost raw = entries@;
            let ghost all = entries.deep_view();
            assert(all.take(0) =~= Seq::<Option<Seq<char>>>::empty());
            for entry in it: entries.into_iter()
                invariant
                    it.seq() == raw,
                    all.len() == raw.len(),
                    forall|j: int| 0 <= j < raw.len() ==> all[j] == (#[trigger] raw[j]).deep_view(),
                    objects.deep_view() == present_keys(all.take(it.index() as int)),
            {
                proof {
                    let i = it.index() as int;
                    assert(all.take(i + 1).drop_last() =~= all.take(i));
                    assert(all.take(i + 1).last() == raw[i].deep_view());
                }
                let ghost before = objects.deep_view();
                match entry {
                    Some(key) => {
                        objects.push(key);
                        assert(objects.deep_view() =~= before.push(key@));
                    },
                    None => {},
                }
            }
            assert(all.take(raw.len() as int) =~= all);
        },
        None => {},
    }
    ListResponse { objects, continuation_token: next_continuation_token }
}

/// Builds the request that stores `body` under `key` in `bucket`, readable
/// by anyone when `make_public` is set.
pub fn put_request(bucket: &str, key: &str, body: Vec<u8>, make_public: bool) -> (request:
    PutRequest)
    ensures
        request@ == (PutRequestView {
            bucket: bucket@,
            key: key@,
            body: body@,
            acl: acl_for(make_public),
        }),
{
    let acl = if make_public {
        Some(PUBLIC_READ_ACL.to_owned())
    } else {
        None
    };
    PutRequest { bucket: bucket.to_owned(), key: key.to_owned(), body, acl }
}

} // verus!
