use vstd::prelude::*;

verus! {

/// Where the WebView2 download links finally resolve to.
pub const WEBVIEW2_URL_PREFIX: &'static str = "https://msedge.sf.dl.delivery.mp.microsoft.com/filestreamingservice/files/";

/// `prefix` is where `s` starts.
pub open spec fn starts_with(s: Seq<char>, prefix: Seq<char>) -> bool {
    prefix.len() <= s.len() && s.subrange(0, prefix.len() as int) == prefix
}

/// Relies on `str::strip_prefix`: the rest of `s` after `prefix`, where `s`
/// starts with it.
#[verifier::external_body]
fn strip_str_prefix(s: &str, prefix: &str) -> (r: Option<String>)
    ensures
        match r {
            Some(rest) => s@ == prefix@ + rest@,
            None => !starts_with(s@, prefix@),
        },
{
    s.strip_prefix(prefix).map(String::from)
}

/// Relies on `str::split_once` with a `char` pattern: the parts before and
/// after the first occurrence of `c`.
#[verifier::external_body]
fn split_once_char(s: &str, c: char) -> (r: Option<(String, String)>)
    ensures
        match r {
            Some((before, after)) => s@ == before@ + seq![c] + after@ && !before@.contains(c),
            None => !s@.contains(c),
        },
{
    s.split_once(c).map(|(before, after)| (before.to_string(), after.to_string()))
}

/// Splits the final WebView2 download URL into the installer's GUID and file
/// name: the URL must start with [`WEBVIEW2_URL_PREFIX`], and what follows
/// is `<GUID>/<FILENAME>`, split at the first `/`.
pub fn webview2_guid_and_file_name(final_url: &str) -> (r: Result<(String, String), String>)
    ensures
        !starts_with(final_url@, WEBVIEW2_URL_PREFIX@) ==> (r matches Err(m)
            && m@ == "WebView2 URL prefix mismatch. Expected `"@ + WEBVIEW2_URL_PREFIX@ + "`, found `"@
                + final_url@ + "`."@),
        starts_with(final_url@, WEBVIEW2_URL_PREFIX@) ==> ({
            let rest = final_url@.subrange(WEBVIEW2_URL_PREFIX@.len() as int, final_url@.len() as int);
            match r {
                Ok((guid, file_name)) => rest == guid@ + seq!['/'] + file_name@ && !guid@.contains('/'),
                Err(m) => !rest.contains('/')
                    && m@ == "WebView2 URL format mismatch. Expected `<GUID>/<FILENAME>`, found `"@ + rest + "`."@,
            }
        }),
{
    let remaining = match strip_str_prefix(final_url, WEBVIEW2_URL_PREFIX) {
        Some(rest) => rest,
        None => {
            let mut message = String::from_str("WebView2 URL prefix mismatch. Expected `");
            message.append(WEBVIEW2_URL_PREFIX);
            message.append("`, found `");
            message.append(final_url);
            message.append("`.");
            return Err(message);
        },
    };
    assert(final_url@.subrange(0, WEBVIEW2_URL_PREFIX@.len() as int) =~= WEBVIEW2_URL_PREFIX@);
    assert(remaining@ =~= final_url@.subrange(WEBVIEW2_URL_PREFIX@.len() as int, final_url@.len() as int));
    match split_once_char(remaining.as_str(), '/') {
        Some(parts) => Ok(parts),
        None => {
            let mut message = String::from_str("WebView2 URL format mismatch. Expected `<GUID>/<FILENAME>`, found `");
            message.append(remaining.as_str());
            message.append("`.");
            Err(message)
        },
    }
}

} // verus!
