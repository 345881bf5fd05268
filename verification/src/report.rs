//! The lines this tool prints, and the address of a stored object.

use crate::s3_client::{ListResponse, ListResponseView};
use vstd::prelude::*;
use vstd::string::*;

verus! {

/// The address of the object `key` of `bucket` in `region`:
/// `https://{bucket}.s3.{region}.amazonaws.com/{key}`.
pub open spec fn object_url_text(bucket: Seq<char>, region: Seq<char>, key: Seq<char>) -> Seq<
    char,
> {
    "https://"@ + bucket + ".s3."@ + region + ".amazonaws.com/"@ + key
}

/// The line that reports a listed object by its address.
pub open spec fn found_object_text(url: Seq<char>) -> Seq<char> {
    "Found object with URL: "@ + url
}

/// The line that hands the cursor for the next page to the user.
pub open spec fn continuation_text(token: Seq<char>) -> Seq<char> {
    "Next Continuation Token: "@ + token
}

/// The line that confirms an upload.
pub open spec fn upload_confirmation_text(bucket: Seq<char>, key: Seq<char>) -> Seq<char> {
    "File uploaded successfully to "@ + bucket + "/"@ + key
}

/// The line that reports a candidate of the file pattern that could not be
/// read and is passed over.
pub open spec fn skipped_entry_text(cause: Seq<char>) -> Seq<char> {
    "Error reading file pattern: "@ + cause
}

/// What list mode prints for one page: a line for each key, in order, then
/// the cursor for the next page if there is one.
pub open spec fn list_report_lines(
    bucket: Seq<char>,
    region: Seq<char>,
    response: ListResponseView,
) -> Seq<Seq<char>> {
    let found = Seq::new(
        response.objects.len(),
        |i: int| found_object_text(object_url_text(bucket, region, response.objects[i])),
    );
    match response.continuation_token {
        Some(token) => found.push(continuation_text(token)),
        None => found,
    }
}

/// Builds the address of the object `key` of `bucket` in `region`. The three
/// parts are inserted as they are.
pub fn object_url(bucket: &str, region: &str, key: &str) -> (url: String)
    ensures
        url@ == object_url_text(bucket@, region@, key@),
{
    let mut url = String::from_str("https://");
    url.append(bucket);
    url.append(".s3.");
    url.append(region);
    url.append(".amazonaws.com/");
    url.append(key);
    url
}

/// Builds the line that reports a listed object.
pub fn found_object_line(url: &str) -> (line: String)
    ensures
        line@ == found_object_text(url@),
{
    String::from_str("Found object with URL: ").concat(url)
}

/// Builds the line that shows the cursor for the next page.
pub fn continuation_line(token: &str) -> (line: String)
    ensures
        line@ == continuation_text(token@),
{
    String::from_str("Next Continuation Token: ").concat(token)
}

/// Builds the line that confirms the upload of `key` to `bucket`.
pub fn upload_confirmation(bucket: &str, key: &str) -> (line: String)
    ensures
        line@ == upload_confirmation_text(bucket@, key@),
{
    let mut line = String::from_str("File uploaded successfully to ");
    line.append(bucket);
    line.append("/");
    line.append(key);
    line
}

/// Builds the line that reports a candidate that was passed over.
pub fn skipped_entry_line(cause: &str) -> (line: String)
    ensures
        line@ == skipped_entry_text(cause@),
{
    String::from_str("Error reading file pattern: ").concat(cause)
}

/// Builds everything list mode prints for one page of `bucket` in `region`.
pub fn list_report(bucket: &str, region: &str, response: &ListResponse) -> (lines: Vec<String>)
    ensures
        lines.deep_view() == list_report_lines(bucket@, region@, response@),
{
    let mut lines: Vec<String> = Vec::new();
    let ghost keys = response@.objects;
    let total: usize = response.objects.len();
    for i in 0..total
        invariant
            total == response.objects.len(),
            keys == response@.objects,
            lines.len() == i,
            forall|j: int|
                0 <= j < i ==> (#[trigger] lines[j])@ == found_object_text(
                    object_url_text(bucket@, region@, keys[j]),
                ),
    {
        let url = object_url(bucket, region, response.objects[i].as_str());
        lines.push(found_object_line(url.as_str()));
    }
    match &response.continuation_token {
        Some(token) => {
            lines.push(continuation_line(token.as_str()));
        },
        None => {},
    }
    assert(lines.deep_view() =~= list_report_lines(bucket@, region@, response@));
    lines
}

} // verus!
