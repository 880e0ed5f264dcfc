//! E-mail dispatch of finished certificates.
//!
//! The send-all action needs an address column: the first column whose
//! header lowercases to "email", or carries the Arabic header for it.
//! Each record then becomes a render job plus the address found in that
//! record. The message itself holds one PNG attachment, a fixed localized
//! subject and an empty body; reading the finished file and talking to
//! the relay are the surrounding program's work.

use vstd::prelude::*;
use vstd::string::StringExecFns;

use crate::config::EmailCreds;
use crate::errors::CertError;
use crate::naming::output_filename;
use crate::render::RenderJob;
use crate::render::RenderJobModel;
use crate::render::generate_certificate;
use crate::batch::spec_batch_job;
use crate::scale::ScaledRegion;

verus! {

/// The lowercase mapping that the address-column search uses. Unicode
/// case mapping fills pages, so the result is named rather than spelled
/// out; it depends on the characters alone.
pub uninterp spec fn lower_of(s: Seq<char>) -> Seq<char>;

/// Relies on std str::to_lowercase: the result depends on the characters
/// alone.
#[verifier::external_body]
fn to_lowercase(s: &str) -> (r: String)
    ensures
        r@ == lower_of(s@),
{
    s.to_lowercase()
}

/// Whether a column header names the address column.
pub open spec fn spec_is_email_header(s: Seq<char>) -> bool {
    lower_of(s) == "email"@ || s == "البريد الالكتروني"@
}

/// Decides whether one column header names the address column.
fn is_email_header(s: &str) -> (r: bool)
    ensures
        r == spec_is_email_header(s@),
{
    let lowered = to_lowercase(s);
    let plain = String::from_str("email");
    let arabic = String::from_str("البريد الالكتروني");
    let own = String::from_str(s);
    lowered == plain || own == arabic
}

/// Finds the first address column, if any.
pub fn find_email_column(columns: &Vec<String>) -> (r: Option<usize>)
    ensures
        match r {
            Option::Some(i) => i < columns@.len() && spec_is_email_header(columns@[i as int]@)
                && forall|j: int| 0 <= j < i ==> !spec_is_email_header(columns@[j]@),
            Option::None => forall|j: int|
                0 <= j < columns@.len() ==> !spec_is_email_header(columns@[j]@),
        },
{
    let n = columns.len();
    let mut i: usize = 0;
    while i < n
        invariant
            n == columns@.len(),
            i <= n,
            forall|j: int| 0 <= j < i ==> !spec_is_email_header(columns@[j]@),
        decreases n - i,
    {
        if is_email_header(columns[i].as_str()) {
            return Option::Some(i);
        }
        i = i + 1;
    }
    Option::None
}

/// There is an address column.
pub open spec fn spec_email_column_exists(cols: Seq<Seq<char>>) -> bool {
    exists|i: int| 0 <= i < cols.len() && spec_is_email_header(cols[i])
}

/// One send job: the render job of a record plus the address to deliver
/// its output to.
#[derive(Clone, Debug)]
pub struct EmailJob {
    pub job: RenderJob,
    pub to: String,
}

/// The mathematical value of an [`EmailJob`].
#[verifier::ext_equal]
pub struct EmailJobModel {
    pub job: RenderJobModel,
    pub to: Seq<char>,
}

impl View for EmailJob {
    type V = EmailJobModel;

    open spec fn view(&self) -> EmailJobModel {
        EmailJobModel { job: self.job@, to: self.to@ }
    }
}

/// Fans the record set out into one send job per record. Succeeds exactly
/// when the column set names an address column; each job pairs the
/// record's render job with the address taken from the first such column.
pub fn make_email_jobs(
    records: &Vec<Vec<String>>,
    columns: &Vec<String>,
    regions: &Vec<ScaledRegion>,
    font_size: u32,
) -> (r: Result<Vec<EmailJob>, CertError>)
    requires
        columns@.len() >= 2,
        forall|i: int| 0 <= i < records@.len() ==> records@[i]@.len() == columns@.len(),
    ensures
        r is Ok <==> spec_email_column_exists(columns.deep_view()),
        r matches Err(e) ==> e == CertError::DataError,
        r matches Ok(jobs) ==> jobs@.len() == records@.len() && exists|e: int|
            #![auto]
            0 <= e < columns@.len() && spec_is_email_header(columns@[e]@) && (forall|j: int|
                0 <= j < e ==> !spec_is_email_header(columns@[j]@)) && forall|i: int|
                0 <= i < records@.len() ==> jobs@[i]@ == (EmailJobModel {
                    job: spec_batch_job(records@[i].deep_view(), regions@, font_size as int),
                    to: records@[i]@[e]@,
                }),
{
    let idx = match find_email_column(columns) {
        Option::Some(idx) => idx,
        Option::None => {
            proof {
                assert(forall|i: int|
                    0 <= i < columns@.len() ==> columns.deep_view()[i] == columns@[i]@);
            }
            return Result::Err(CertError::DataError);
        },
    };
    let mut jobs: Vec<EmailJob> = Vec::new();
    let n = records.len();
    let mut i: usize = 0;
    while i < n
        invariant
            n == records@.len(),
            i <= n,
            jobs@.len() == i,
            idx < columns@.len(),
            columns@.len() >= 2,
            forall|k: int| 0 <= k < records@.len() ==> records@[k]@.len() == columns@.len(),
            forall|k: int|
                0 <= k < i ==> jobs@[k]@ == (EmailJobModel {
                    job: spec_batch_job(records@[k].deep_view(), regions@, font_size as int),
                    to: records@[k]@[idx as int]@,
                }),
        decreases n - i,
    {
        let record = &records[i];
        let filename = output_filename(record);
        let job = generate_certificate(record, regions, filename.as_str(), font_size);
        let to = record[idx].clone();
        proof {
            assert(record.deep_view()[0] == record@[0]@);
            assert(record.deep_view()[1] == record@[1]@);
        }
        jobs.push(EmailJob { job, to });
        i = i + 1;
    }
    proof {
        assert(spec_is_email_header(columns.deep_view()[idx as int]));
    }
    Result::Ok(jobs)
}

#[verifier::external_type_specification]
#[verifier::external_body]
pub struct ExMailbox(lettre::message::Mailbox);

#[verifier::external_type_specification]
#[verifier::external_body]
pub struct ExSinglePart(lettre::message::SinglePart);

#[verifier::external_type_specification]
#[verifier::external_body]
pub struct ExMessage(lettre::Message);

/// Whether lettre's mailbox parser accepts a string as an address. The
/// parser is a hand-written function of the string alone, so its
/// acceptance can be named; the grammar it accepts fills pages.
pub uninterp spec fn mailbox_ok(s: Seq<char>) -> bool;

/// Relies on lettre's address parsing (`FromStr` for
/// `lettre::message::Mailbox`): a pure function of the string that
/// either parses it to a mailbox — exactly on the addresses its grammar
/// accepts, named [`mailbox_ok`] — or fails with an address error,
/// mapped here to the malformed-data error.
#[verifier::external_body]
fn parse_mailbox(s: &str) -> (r: Result<lettre::message::Mailbox, CertError>)
    ensures
        r is Ok <==> mailbox_ok(s@),
        r matches Err(e) ==> e == CertError::DataError,
{
    match s.parse::<lettre::message::Mailbox>() {
        Ok(m) => Ok(m),
        Err(_) => Err(CertError::DataError),
    }
}

/// Relies on lettre's `Attachment::new` and `Attachment::body`, which
/// build a single MIME part holding the given bytes under the given
/// attachment name, and on `ContentType::parse`, which cannot fail on
/// the constant, valid MIME type given here.
#[verifier::external_body]
fn png_attachment(name: String, png: Vec<u8>) -> (part: lettre::message::SinglePart) {
    lettre::message::Attachment::new(name).body(
        png,
        lettre::message::header::ContentType::parse("image/png").unwrap(),
    )
}

/// Relies on lettre's message builder (`Message::builder` with `from`,
/// `to`, `subject` and `multipart`, and the `MultiPart` constructors
/// `alternative`, `mixed` and `singlepart`): it assembles the message
/// with the given sender, recipient, subject and attachment. With
/// exactly one sender and one recipient supplied, assembly cannot fail:
/// the builder errs only on a missing or plural originator, or on an
/// envelope without a recipient.
#[verifier::external_body]
fn assemble_message(
    from: lettre::message::Mailbox,
    to: lettre::message::Mailbox,
    subject: &str,
    attachment: lettre::message::SinglePart,
) -> (r: Result<lettre::Message, CertError>)
    ensures
        r is Ok,
{
    let parts = lettre::message::MultiPart::alternative().multipart(
        lettre::message::MultiPart::mixed().singlepart(attachment),
    );
    match lettre::Message::builder().from(from).to(to).subject(subject).multipart(parts) {
        Ok(m) => Ok(m),
        Err(_) => Err(CertError::DataError),
    }
}

/// Builds the message that delivers one finished certificate: one PNG
/// attachment of the given bytes under the fixed name "Certificate.png",
/// the fixed localized subject, an empty body, from the configured
/// account to the given address. Succeeds exactly when both addresses
/// parse — the sender taken from the credentials, the recipient from the
/// record — and fails with the typed malformed-data error otherwise.
pub fn build_certificate_email(
    creds: &EmailCreds,
    to: &str,
    png: Vec<u8>,
) -> (r: Result<lettre::Message, CertError>)
    ensures
        r is Ok <==> mailbox_ok(creds.username@) && mailbox_ok(to@),
        r matches Err(e) ==> e == CertError::DataError,
{
    let from = match parse_mailbox(creds.username.as_str()) {
        Result::Ok(m) => m,
        Result::Err(e) => {
            return Result::Err(e);
        },
    };
    let to_mailbox = match parse_mailbox(to) {
        Result::Ok(m) => m,
        Result::Err(e) => {
            return Result::Err(e);
        },
    };
    let attachment = png_attachment(String::from_str("Certificate.png"), png);
    assemble_message(from, to_mailbox, "شهادة حضور", attachment)
}

} // verus!
