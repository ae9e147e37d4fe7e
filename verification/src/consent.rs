//! Consent records and the documents a user consents to.

use vstd::prelude::*;
use vstd::string::StringExecFns;

verus! {

/// What a user can consent to.
#[derive(Debug, Clone, Copy, PartialEq, Eq, Structural)]
pub enum ConsentType {
    Metrics,
    TermsAndPrivacy,
}

impl ConsentType {
    /// The name of the consent type in a consent record.
    pub open spec fn wire_name(self) -> Seq<char> {
        match self {
            ConsentType::Metrics => "metrics"@,
            ConsentType::TermsAndPrivacy => "terms_and_privacy"@,
        }
    }

    /// The name of the consent type in a consent record.
    pub fn as_str(&self) -> (name: &'static str)
        ensures
            name@ == self.wire_name(),
    {
        match self {
            ConsentType::Metrics => "metrics",
            ConsentType::TermsAndPrivacy => "terms_and_privacy",
        }
    }
}

/// The endpoints of the consent service.
#[derive(Debug, Clone, Copy, PartialEq, Eq, Structural)]
pub enum ConsentEndpoint {
    RecordConsent,
    TermsOfService,
    PrivacyStatement,
    LatestConsentChecksum,
}

impl ConsentEndpoint {
    /// The path of the endpoint below the base address of the service.
    pub open spec fn path(self) -> Seq<char> {
        match self {
            ConsentEndpoint::RecordConsent => "/v1/record_consent"@,
            ConsentEndpoint::TermsOfService => "/v1/terms_of_service_md"@,
            ConsentEndpoint::PrivacyStatement => "/v1/privacy_statement_md"@,
            ConsentEndpoint::LatestConsentChecksum => "/v1/latest_consent_checksum"@,
        }
    }

    /// The address of the endpoint at a service whose base address is `base`.
    pub fn url(&self, base: &str) -> (url: String)
        ensures
            url@ == base@ + self.path(),
    {
        let mut url = String::from_str(base);
        match self {
            ConsentEndpoint::RecordConsent => url.append("/v1/record_consent"),
            ConsentEndpoint::TermsOfService => url.append("/v1/terms_of_service_md"),
            ConsentEndpoint::PrivacyStatement => url.append("/v1/privacy_statement_md"),
            ConsentEndpoint::LatestConsentChecksum => url.append("/v1/latest_consent_checksum"),
        }
        url
    }
}

/// The checksum of the accepted document, given whether the service accepted
/// the record (`None` where the request itself failed) and the body of its
/// answer. Anything but an accepted record fails with the message
/// `Failed to record consent`.
pub fn recorded_consent(accepted: Option<bool>, body: String) -> (result: Result<String, String>)
    ensures
        match result {
            Ok(sha) => accepted == Some(true) && sha == body,
            Err(message) => accepted != Some(true) && message@ == "Failed to record consent"@,
        },
{
    match accepted {
        Some(true) => Ok(body),
        _ => Err(String::from_str("Failed to record consent")),
    }
}

/// The HTML that the `markdown` crate makes of a GitHub-flavoured markdown
/// document, with or without raw HTML passed through.
pub uninterp spec fn gfm_html(markdown: Seq<char>, allow_dangerous_html: bool) -> Seq<char>;

/// `markdown::to_html_with_options` with the GitHub-flavoured options of the
/// crate and the given setting for raw HTML. The crate documents that the
/// call never fails on markdown, which has no syntax errors; it reports an
/// error for MDX input only, and these options leave every MDX construct
/// off. The contract therefore claims that the result is always `Some`, and
/// that it is the HTML the crate makes of the document.
#[verifier::external_body]
fn render_gfm(markdown: &str, allow_dangerous_html: bool) -> (html: Option<String>)
    ensures
        html is Some,
        (html->0)@ == gfm_html(markdown@, allow_dangerous_html),
{
    let compile = markdown::CompileOptions { allow_dangerous_html, ..markdown::CompileOptions::gfm() };
    let options = markdown::Options { compile, ..markdown::Options::gfm() };
    markdown::to_html_with_options(markdown, &options).ok()
}

/// The HTML form of a terms or privacy document. Raw HTML in the document is
/// passed through. Every document has an HTML form: the result is always
/// `Some`.
pub fn parse_markdown_document(markdown: &str) -> (html: Option<String>)
    ensures
        html is Some,
        (html->0)@ == gfm_html(markdown@, true),
{
    render_gfm(markdown, true)
}

} // verus!
