//! The ways a request can be refused, the HTTP status each one is answered with,
//! and the text of its error message.
use vstd::prelude::*;
use vstd::string::StringExecFns;

verus! {

/// Why a request was not served.
#[derive(Clone, Copy, PartialEq, Eq, Structural, Debug)]
pub enum Failure {
    /// The request needs the configured token and did not carry it.
    NotAllowed,
    /// No file has the requested id.
    NotFound,
    /// The database could not say whether the file exists.
    CheckFailed,
    /// The file could not be deleted.
    DeleteFailed,
    /// The stored file could not be read.
    ReadFailed,
    /// Storing the upload failed on the server's side.
    UploadFailed,
    /// The request body is not multipart form data.
    FormRejected,
    /// The multipart form could not be read.
    BadForm,
    /// The uploaded file's data could not be read.
    BadFileData,
    /// The upload is larger than the limit, given in mebibytes.
    TooLarge { limit_mb: u64 },
    /// There is not enough storage left for the upload.
    StorageFull,
    /// The `link` field could not be read.
    BadLinkField,
    /// The file behind the supplied link could not be downloaded.
    DownloadFailed,
    /// The form held neither a `file` nor a `link` field.
    NothingSent,
}

/// The HTTP status a failure is answered with.
pub open spec fn failure_status(f: Failure) -> u16 {
    match f {
        Failure::NotAllowed => 401,
        Failure::NotFound => 404,
        Failure::FormRejected | Failure::BadForm | Failure::BadFileData | Failure::BadLinkField
        | Failure::NothingSent => 400,
        Failure::TooLarge { .. } => 413,
        Failure::DownloadFailed => 502,
        Failure::CheckFailed | Failure::DeleteFailed | Failure::ReadFailed | Failure::UploadFailed
        | Failure::StorageFull => 500,
    }
}

/// The statuses failures are answered with: 401 for a missing token, 404 for a
/// missing file, 400 for an unreadable or empty request, 413 for a file over
/// the limit, 502 for a failed download, 500 for everything on the server's side.
pub proof fn law_failure_statuses(limit_mb: u64)
    ensures
        failure_status(Failure::NotAllowed) == 401,
        failure_status(Failure::NotFound) == 404,
        failure_status(Failure::FormRejected) == 400,
        failure_status(Failure::BadForm) == 400,
        failure_status(Failure::BadFileData) == 400,
        failure_status(Failure::BadLinkField) == 400,
        failure_status(Failure::NothingSent) == 400,
        failure_status(Failure::TooLarge { limit_mb }) == 413,
        failure_status(Failure::DownloadFailed) == 502,
        failure_status(Failure::CheckFailed) == 500,
        failure_status(Failure::DeleteFailed) == 500,
        failure_status(Failure::ReadFailed) == 500,
        failure_status(Failure::UploadFailed) == 500,
        failure_status(Failure::StorageFull) == 500,
{
}

/// The character of a decimal digit.
pub open spec fn decimal_digit(d: nat) -> char {
    (('0' as nat) + d) as char
}

/// The decimal rendering of a number, without leading zeros.
pub open spec fn decimal(n: nat) -> Seq<char>
    decreases n,
{
    if n < 10 {
        seq![decimal_digit(n)]
    } else {
        decimal(n / 10).push(decimal_digit(n % 10))
    }
}

/// The number a string of decimal digits reads as.
pub open spec fn decimal_value(s: Seq<char>) -> int
    decreases s.len(),
{
    if s.len() == 0 {
        0
    } else {
        10 * decimal_value(s.drop_last()) + (s.last() as int - '0' as int)
    }
}

/// The decimal rendering of a number is made of digits only, reads back as the
/// number, and starts with `0` only when it is `0` itself.
pub proof fn law_decimal_reads_back(n: nat)
    ensures
        forall|i: int| 0 <= i < decimal(n).len() ==> '0' <= #[trigger] decimal(n)[i] && decimal(n)[i] <= '9',
        decimal_value(decimal(n)) == n,
        decimal(n).len() > 0,
        decimal(n)[0] == '0' ==> n == 0 && decimal(n).len() == 1,
    decreases n,
{
    if n < 10 {
        assert(decimal(n) == seq![decimal_digit(n)]);
        assert(decimal_digit(n) as int == '0' as int + n);
        assert(decimal(n).drop_last() =~= Seq::<char>::empty());
        assert(decimal_value(Seq::<char>::empty()) == 0);
        assert(decimal_value(decimal(n)) == 10 * decimal_value(decimal(n).drop_last())
            + (decimal(n).last() as int - '0' as int));
    } else {
        law_decimal_reads_back(n / 10);
        let d = decimal(n);
        let p = decimal(n / 10);
        assert(d == p.push(decimal_digit(n % 10)));
        assert(d.drop_last() =~= p);
        assert(d.last() == decimal_digit(n % 10));
        assert(decimal_digit(n % 10) as int == '0' as int + n % 10);
        assert(10 * (n / 10) + n % 10 == n);
        assert(decimal_value(d) == 10 * decimal_value(d.drop_last()) + (d.last() as int - '0' as int));
        assert(d[0] == p[0]);
        assert forall|i: int| 0 <= i < d.len() implies '0' <= #[trigger] d[i] && d[i] <= '9' by {
            if i < p.len() {
                assert(d[i] == p[i]);
            }
        }
    }
}

/// The text of a failure's error message.
pub open spec fn failure_message(f: Failure) -> Seq<char> {
    match f {
        Failure::NotAllowed => "You are not allowed to use this!"@,
        Failure::NotFound => "This file does not exist!"@,
        Failure::CheckFailed => "Failed checking for file"@,
        Failure::DeleteFailed => "Failed deleting file"@,
        Failure::ReadFailed => "Failed reading file"@,
        Failure::UploadFailed => "Failed uploading your file"@,
        Failure::FormRejected => "Invalid/missing multipart form data"@,
        Failure::BadForm => "Invalid or missing multipart form data"@,
        Failure::BadFileData => "Failed reading uploaded file data"@,
        Failure::TooLarge { limit_mb } =>
            "File exceeds the maximum file size limit of "@ + decimal(limit_mb as nat) + " megabytes"@,
        Failure::StorageFull => "The server is completely full!"@,
        Failure::BadLinkField => "Failed reading the link field"@,
        Failure::DownloadFailed => "Failed downloading from the link supplied"@,
        Failure::NothingSent => "Please send either a file or a link"@,
    }
}

/// The messages failures are answered with.
pub proof fn law_failure_messages(limit_mb: u64)
    ensures
        failure_message(Failure::NotAllowed) == "You are not allowed to use this!"@,
        failure_message(Failure::NotFound) == "This file does not exist!"@,
        failure_message(Failure::CheckFailed) == "Failed checking for file"@,
        failure_message(Failure::DeleteFailed) == "Failed deleting file"@,
        failure_message(Failure::ReadFailed) == "Failed reading file"@,
        failure_message(Failure::UploadFailed) == "Failed uploading your file"@,
        failure_message(Failure::FormRejected) == "Invalid/missing multipart form data"@,
        failure_message(Failure::BadForm) == "Invalid or missing multipart form data"@,
        failure_message(Failure::BadFileData) == "Failed reading uploaded file data"@,
        failure_message(Failure::TooLarge { limit_mb }) == "File exceeds the maximum file size limit of "@
            + decimal(limit_mb as nat) + " megabytes"@,
        failure_message(Failure::StorageFull) == "The server is completely full!"@,
        failure_message(Failure::BadLinkField) == "Failed reading the link field"@,
        failure_message(Failure::DownloadFailed) == "Failed downloading from the link supplied"@,
        failure_message(Failure::NothingSent) == "Please send either a file or a link"@,
{
}

/// `u64::to_string`: the number's `Display` rendering, its decimal digits without
/// leading zeros.
#[verifier::external_body]
pub(crate) fn decimal_string(n: u64) -> (s: String)
    ensures
        s@ == decimal(n as nat),
{
    n.to_string()
}

impl Failure {
    /// The HTTP status this failure is answered with.
    pub fn status(&self) -> (code: u16)
        ensures
            code == failure_status(*self),
    {
        match self {
            Failure::NotAllowed => 401,
            Failure::NotFound => 404,
            Failure::FormRejected | Failure::BadForm | Failure::BadFileData | Failure::BadLinkField
            | Failure::NothingSent => 400,
            Failure::TooLarge { .. } => 413,
            Failure::DownloadFailed => 502,
            Failure::CheckFailed | Failure::DeleteFailed | Failure::ReadFailed
            | Failure::UploadFailed | Failure::StorageFull => 500,
        }
    }

    /// The text of this failure's error message.
    pub fn message(&self) -> (text: String)
        ensures
            text@ == failure_message(*self),
    {
        match self {
            Failure::NotAllowed => "You are not allowed to use this!".to_owned(),
            Failure::NotFound => "This file does not exist!".to_owned(),
            Failure::CheckFailed => "Failed checking for file".to_owned(),
            Failure::DeleteFailed => "Failed deleting file".to_owned(),
            Failure::ReadFailed => "Failed reading file".to_owned(),
            Failure::UploadFailed => "Failed uploading your file".to_owned(),
            Failure::FormRejected => "Invalid/missing multipart form data".to_owned(),
            Failure::BadForm => "Invalid or missing multipart form data".to_owned(),
            Failure::BadFileData => "Failed reading uploaded file data".to_owned(),
            Failure::TooLarge { limit_mb } => {
                let mut text = "File exceeds the maximum file size limit of ".to_owned();
                let digits = decimal_string(*limit_mb);
                text.append(digits.as_str());
                text.append(" megabytes");
                text
            },
            Failure::StorageFull => "The server is completely full!".to_owned(),
            Failure::BadLinkField => "Failed reading the link field".to_owned(),
            Failure::DownloadFailed => "Failed downloading from the link supplied".to_owned(),
            Failure::NothingSent => "Please send either a file or a link".to_owned(),
        }
    }
}

} // verus!
