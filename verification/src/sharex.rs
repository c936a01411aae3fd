use vstd::prelude::*;
use vstd::string::StringExecFns;

use crate::models::HttpStatus;
use crate::text::concat2;

verus! {

/// Query of the uploader configuration route.
#[derive(Debug)]
pub struct ToolQuery {
    pub tool: String,
    pub api_key: String,
    pub domain: String,
}

/// A ShareX custom uploader (`.sxcu`) for this server.
#[derive(Debug)]
pub struct SharexConfig {
    pub version: String,
    pub name: String,
    pub destination_type: String,
    pub request_method: String,
    pub request_url: String,
    pub authorization: String,
    pub body: String,
    pub file_form_name: String,
    pub url: String,
    pub error_message: String,
}

/// The ShareX uploader: it posts the file as multipart field `file` to
/// `{domain}/upload` with the API key as authorization, and reads the file URL
/// and error from the first entry of the reply.
pub fn sharex(api_key: String, domain: &str) -> (res: SharexConfig)
    ensures
        res.version@ == "15.0.0"@,
        res.name@ == "Comet"@,
        res.destination_type@ == "ImageUploader, TextUploader, FileUploader"@,
        res.request_method@ == "POST"@,
        res.request_url@ == domain@ + "/upload"@,
        res.authorization@ == api_key@,
        res.body@ == "MultipartFormData"@,
        res.file_form_name@ == "file"@,
        res.url@ == domain@ + "{json:$.[0].file_url}"@,
        res.error_message@ == "{json:$.[0].error}"@,
{
    SharexConfig {
        version: String::from_str("15.0.0"),
        name: String::from_str("Comet"),
        destination_type: String::from_str("ImageUploader, TextUploader, FileUploader"),
        request_method: String::from_str("POST"),
        request_url: concat2(domain, "/upload"),
        authorization: api_key,
        body: String::from_str("MultipartFormData"),
        file_form_name: String::from_str("file"),
        url: concat2(domain, "{json:$.[0].file_url}"),
        error_message: String::from_str("{json:$.[0].error}"),
    }
}

/// The uploader configuration for the requested tool; only ShareX is known.
pub fn route(query: ToolQuery) -> (res: Result<SharexConfig, HttpStatus>)
    ensures
        query.tool@ == "sharex"@ ==> (res matches Ok(c) && c.request_url@ == query.domain@
            + "/upload"@ && c.authorization@ == query.api_key@ && c.url@ == query.domain@
            + "{json:$.[0].file_url}"@),
        query.tool@ != "sharex"@ ==> res == Err::<SharexConfig, HttpStatus>(HttpStatus::BadRequest),
{
    if query.tool == String::from_str("sharex") {
        Ok(sharex(query.api_key, query.domain.as_str()))
    } else {
        Err(HttpStatus::BadRequest)
    }
}

} // verus!
