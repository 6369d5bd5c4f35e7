//! The npm registry, which knows the latest version of the kernel, and the
//! release channel, which hosts its archives.

use vstd::prelude::*;

use crate::http;
use crate::text;

verus! {

/// The npm package name of the kernel.
pub const KERNEL_PACKAGE: &'static str = "@deepseek-ai/dsh";

pub const NPM_REGISTRY: &'static str = "https://registry.npmjs.org";

/// Hosts the self-contained kernel archives, each as
/// `kernel-<version>/kernel-<version>.tar.gz`.
pub const KERNEL_RELEASE_BASE: &'static str =
    "https://github.com/GotoFox/deepseek-harness-client/releases/download";

pub const QUERY_FAILED: &'static str = "查询 npm 版本失败：";

pub const REFUSED: &'static str = "npm 返回 ";

pub const NO_VERSION: &'static str = "npm 响应缺少 version 字段";

/// The member of the registry's answer that holds the version.
pub const VERSION_MEMBER: &'static str = "version";

/// Where the registry describes the latest version.
pub fn registry_url() -> (r: String)
    ensures
        r@ == NPM_REGISTRY@ + "/"@ + KERNEL_PACKAGE@ + "/latest"@,
{
    let mut r = text::join3(NPM_REGISTRY, "/", KERNEL_PACKAGE);
    r.append("/latest");
    r
}

/// Where the archive of `version` lies.
pub open spec fn archive_address(version: Seq<char>) -> Seq<char> {
    KERNEL_RELEASE_BASE@ + "/kernel-"@ + version + "/kernel-"@ + version + ".tar.gz"@
}

/// Where the archive of `version` lies.
pub fn archive_url(version: &str) -> (r: String)
    ensures
        r@ == archive_address(version@),
{
    let mut r = text::join3(KERNEL_RELEASE_BASE, "/kernel-", version);
    r.append("/kernel-");
    r.append(version);
    r.append(".tar.gz");
    r
}

/// The message when the registry could not be asked.
pub fn query_failed(error: &str) -> (r: String)
    ensures
        r@ == QUERY_FAILED@ + error@,
{
    text::join2(QUERY_FAILED, error)
}

/// The message when the registry answered with the status `status`.
pub fn refusal(status: &str) -> (r: String)
    ensures
        r@ == REFUSED@ + status@,
{
    text::join2(REFUSED, status)
}

/// Accepts the answer of the registry if its status is a success.
pub fn accept_status(code: u16) -> (r: Result<(), String>)
    requires
        http::is_status(code),
    ensures
        text::outcome_text(r) == (if http::succeeded(code) {
            Ok(())
        } else {
            Err(REFUSED@ + http::status_line(code))
        }),
{
    if http::is_success(code) {
        Ok(())
    } else {
        Err(refusal(http::status_text(code).as_str()))
    }
}

/// A parsed JSON document.
#[verifier::external_type_specification]
#[verifier::external_body]
pub struct ExJsonValue(serde_json::Value);

/// What a JSON document holds as an object: its member names and, for the
/// members that are strings, their text. A document that is no object holds
/// nothing.
pub uninterp spec fn json_members(document: serde_json::Value) -> Map<Seq<char>, Option<Seq<char>>>;

/// What `serde_json` reads in `body`: the members of the document, or the text of
/// its error.
pub uninterp spec fn json_parsed(body: Seq<u8>) -> Result<
    Map<Seq<char>, Option<Seq<char>>>,
    Seq<char>,
>;

/// `serde_json::from_reader` on the bytes of `body`, its error being handed out
/// by its `Display` text. Whether there is a document, what it holds, and the
/// text of the error otherwise depend on the bytes alone.
#[verifier::external_body]
fn parse_json(body: &[u8]) -> (r: Result<serde_json::Value, String>)
    ensures
        match r {
            Ok(document) => json_parsed(body@) == Ok::<_, Seq<char>>(json_members(document)),
            Err(message) => json_parsed(body@) == Err::<Map<Seq<char>, Option<Seq<char>>>, _>(
                message@,
            ),
        },
{
    serde_json::from_reader::<&[u8], serde_json::Value>(body).map_err(|e| e.to_string())
}

/// `serde_json::Value::get` with a member name, the member being handed out by
/// its text, which `serde_json::Value::as_str` gives: nothing if the document has
/// no such member, and a member without text if it is no string.
#[verifier::external_body]
fn json_member(document: &serde_json::Value, name: &str) -> (r: Option<Option<String>>)
    ensures
        r is Some <==> json_members(*document).contains_key(name@),
        r matches Some(member) ==> text::optional_text(member) == json_members(*document)[name@],
{
    document.get(name).map(|member| member.as_str().map(String::from))
}

/// The version that the version member of an answer states.
pub open spec fn stated_version(members: Map<Seq<char>, Option<Seq<char>>>) -> Result<
    Seq<char>,
    Seq<char>,
> {
    if members.contains_key(VERSION_MEMBER@) && members[VERSION_MEMBER@] is Some {
        Ok(members[VERSION_MEMBER@]->0)
    } else {
        Err(NO_VERSION@)
    }
}

/// The version that a version member states: there must be one, and it must be
/// a string.
pub fn version_in_member(member: Option<Option<String>>) -> (r: Result<String, String>)
    ensures
        text::reply_text(r) == (match member {
            Some(Some(version)) => Ok(version@),
            _ => Err(NO_VERSION@),
        }),
{
    match member {
        Some(Some(version)) => Ok(version),
        _ => Err(NO_VERSION.to_string()),
    }
}

/// The version that the body of the registry's answer states.
pub fn version_in_body(body: &[u8]) -> (r: Result<String, String>)
    ensures
        text::reply_text(r) == (match json_parsed(body@) {
            Ok(members) => stated_version(members),
            Err(message) => Err(message),
        }),
{
    match parse_json(body) {
        Ok(document) => version_in_member(json_member(&document, VERSION_MEMBER)),
        Err(message) => Err(message),
    }
}

/// The latest version that an answer of the registry with the status `code` gives.
pub open spec fn latest_in(code: u16, body: Seq<u8>) -> Result<Seq<char>, Seq<char>> {
    if http::succeeded(code) {
        match json_parsed(body) {
            Ok(members) => stated_version(members),
            Err(message) => Err(message),
        }
    } else {
        Err(REFUSED@ + http::status_line(code))
    }
}

/// The latest version, from the status and the body of the registry's answer.
/// The status is judged first: a refused answer is an error whatever its body.
pub fn latest_version(code: u16, body: &[u8]) -> (r: Result<String, String>)
    requires
        http::is_status(code),
    ensures
        text::reply_text(r) == (if !http::succeeded(code) {
            Err(REFUSED@ + http::status_line(code))
        } else {
            match json_parsed(body@) {
                Ok(members) => stated_version(members),
                Err(message) => Err(message),
            }
        }),
        text::reply_text(r) == latest_in(code, body@),
{
    match accept_status(code) {
        Ok(_) => version_in_body(body),
        Err(message) => Err(message),
    }
}

/// Each version has its archive at an address of its own in the release channel.
pub proof fn an_archive_is_found_by_its_version(version: Seq<char>)
    ensures
        archive_address(version)
            == "https://github.com/GotoFox/deepseek-harness-client/releases/download"@ + "/kernel-"@
            + version + "/kernel-"@ + version + ".tar.gz"@,
{
}

/// The answer states its version in the member of that name, as it stands there;
/// an answer without that member, or with anything but a string in it, states
/// none, whatever else it holds.
pub proof fn the_version_member_states_the_version(
    members: Map<Seq<char>, Option<Seq<char>>>,
    version: Seq<char>,
)
    ensures
        stated_version(members.insert("version"@, Some(version))) == Ok::<_, Seq<char>>(version),
        stated_version(members.insert("version"@, None)) == Err::<Seq<char>, _>(
            "npm 响应缺少 version 字段"@,
        ),
        stated_version(members.remove("version"@)) == Err::<Seq<char>, _>(
            "npm 响应缺少 version 字段"@,
        ),
{
}

/// Only an answer from 200 to 299 is read. Any other is refused with its status,
/// and it makes no difference what it says.
pub proof fn a_refused_answer_is_not_read(code: u16, body: Seq<u8>, version: Seq<char>)
    ensures
        code < 200 || code > 299 ==> latest_in(code, body) == Err::<Seq<char>, _>(
            "npm 返回 "@ + http::status_line(code),
        ),
        200 <= code <= 299 ==> match json_parsed(body) {
            Err(message) => latest_in(code, body) == Err::<Seq<char>, _>(message),
            Ok(members) => {
                &&& latest_in(code, body) == Ok::<_, Seq<char>>(version) <==> members.contains_pair(
                    "version"@,
                    Some(version),
                )
                &&& latest_in(code, body) is Err ==> latest_in(code, body) == Err::<Seq<char>, _>(
                    "npm 响应缺少 version 字段"@,
                )
            },
        },
{
}

} // verus!
