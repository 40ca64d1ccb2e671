//! The Athena service as this library sees it: where results go, which
//! database and workgroup a query runs in, and how a query is opened. The
//! requests themselves are made by the caller, stage by stage.

use crate::error::{Error, ErrorView};
use std::str::FromStr;
use vstd::prelude::*;

pub mod conversation;
pub mod execution;
pub mod page;
pub mod status;
pub mod types;

pub use self::execution::{
    Reply, ReplyView, Stage, StageView, Step, StepView, Submission, SubmissionView,
};
pub use self::page::{ResultPage, ResultPageView};
pub use self::status::{
    ExecutionStatus, ExecutionStatusView, QueryState, Statistics, Verdict, VerdictView,
};
pub use self::types::{QueryResult, QueryResultView};

verus! {

/// Whether `rusoto_core::Region` knows a region under the name `name`.
pub uninterp spec fn region_known(name: Seq<char>) -> bool;

/// Asks `rusoto_core::Region::from_str` whether it can read `name`.
/// Trusted: the answer depends on `name` alone.
#[verifier::external_body]
fn knows_region(name: &str) -> (known: bool)
    ensures
        known == region_known(name@),
{
    rusoto_core::Region::from_str(name).is_ok()
}

/// Whether `c` is a digit of lower-case hexadecimal.
pub open spec fn is_lower_hex(c: char) -> bool {
    ('0' <= c && c <= '9') || ('a' <= c && c <= 'f')
}

/// Whether `token` has the shape in which a UUID is printed: 36 characters,
/// hyphens after the 8th, 12th, 16th and 20th digit, and lower-case
/// hexadecimal digits everywhere else.
pub open spec fn is_token(token: Seq<char>) -> bool {
    &&& token.len() == 36
    &&& forall|i: int|
        0 <= i < 36 ==> if i == 8 || i == 13 || i == 18 || i == 23 {
            (#[trigger] token[i]) == '-'
        } else {
            is_lower_hex(token[i])
        }
}

/// Draws a random identifier from `uuid::Uuid::new_v4` and prints it.
/// Trusted: the printed form is the hyphenated lower-case one, whatever was
/// drawn.
#[verifier::external_body]
fn fresh_token() -> (token: String)
    ensures
        is_token(token@),
{
    uuid::Uuid::new_v4().to_string()
}

/// The settings under which queries are run.
#[derive(Debug, Clone, PartialEq, Eq)]
pub struct Athena {
    region: String,
    database: String,
    result_bucket: String,
    workgroup: Option<String>,
}

/// The mathematical value of an [`Athena`].
pub struct AthenaView {
    pub region: Seq<char>,
    pub database: Seq<char>,
    pub result_bucket: Seq<char>,
    pub workgroup: Option<Seq<char>>,
}

impl View for Athena {
    type V = AthenaView;

    closed spec fn view(&self) -> AthenaView {
        AthenaView {
            region: self.region@,
            database: self.database@,
            result_bucket: self.result_bucket@,
            workgroup: self.workgroup.deep_view(),
        }
    }
}

impl AthenaView {
    /// What is sent to start `query` under these settings, with `token` to
    /// tell this submission from every other.
    pub open spec fn submission(self, query: Seq<char>, token: Seq<char>) -> SubmissionView {
        SubmissionView {
            client_request_token: token,
            query_string: query,
            output_location: self.result_bucket,
            database: self.database,
            work_group: self.workgroup,
        }
    }

    /// The stage in which `query` is to be submitted with `token`.
    pub open spec fn opening(self, query: Seq<char>, token: Seq<char>) -> StageView {
        StageView::Submitting { submission: self.submission(query, token) }
    }
}

/// A copy of an optional text.
fn copy_of(text: &Option<String>) -> (copy: Option<String>)
    ensures
        copy.deep_view() == text.deep_view(),
{
    match text {
        Some(text) => Some(text.clone()),
        None => None,
    }
}

/// The settings made of these four values.
pub open spec fn settings(
    region: Seq<char>,
    database: Seq<char>,
    result_bucket: Seq<char>,
    workgroup: Option<Seq<char>>,
) -> AthenaView {
    AthenaView { region, database, result_bucket, workgroup }
}

/// Settings are made for a known region only.
pub open spec fn checked(known: bool, wanted: AthenaView) -> Result<AthenaView, ErrorView> {
    if known {
        Ok(wanted)
    } else {
        Err(ErrorView::InvalidRegion)
    }
}

/// The mathematical value of settings that were made, or refused.
pub open spec fn made_view(made: Result<Athena, Error>) -> Result<AthenaView, ErrorView> {
    match made {
        Ok(athena) => Ok(athena@),
        Err(error) => Err(error@),
    }
}

impl Athena {
    /// The settings for `region`, unless no region of that name is known.
    pub fn new(
        region: &str,
        database: &str,
        result_bucket: &str,
        workgroup: Option<String>,
    ) -> (made: Result<Athena, Error>)
        ensures
            made_view(made) == checked(
                region_known(region@),
                settings(region@, database@, result_bucket@, workgroup.deep_view()),
            ),
    {
        Self::from_checked_region(knows_region(region), region, database, result_bucket, workgroup)
    }

    /// The settings for a region that is `known` or not: made in the first
    /// case, refused as an invalid region in the second.
    pub fn from_checked_region(
        known: bool,
        region: &str,
        database: &str,
        result_bucket: &str,
        workgroup: Option<String>,
    ) -> (made: Result<Athena, Error>)
        ensures
            made_view(made) == checked(
                known,
                settings(region@, database@, result_bucket@, workgroup.deep_view()),
            ),
    {
        if known {
            Ok(
                Athena {
                    region: region.to_owned(),
                    database: database.to_owned(),
                    result_bucket: result_bucket.to_owned(),
                    workgroup,
                },
            )
        } else {
            Err(Error::InvalidRegion)
        }
    }

    /// The region in which queries run.
    pub fn region(&self) -> (region: &str)
        ensures
            region@ == self@.region,
    {
        self.region.as_str()
    }

    /// The database in which queries run.
    pub fn database(&self) -> (database: &str)
        ensures
            database@ == self@.database,
    {
        self.database.as_str()
    }

    /// The place where the service is to put the results.
    pub fn result_bucket(&self) -> (result_bucket: &str)
        ensures
            result_bucket@ == self@.result_bucket,
    {
        self.result_bucket.as_str()
    }

    /// The workgroup in which queries run, if one was chosen.
    pub fn workgroup(&self) -> (workgroup: &Option<String>)
        ensures
            workgroup.deep_view() == self@.workgroup,
    {
        &self.workgroup
    }

    /// Opens a query: the stage in which `query` is to be submitted under
    /// these settings, with a token drawn afresh for this submission.
    pub fn query(&self, query: &str) -> (stage: Stage)
        ensures
            stage@ == self@.opening(query@, stage@->submission.client_request_token),
            is_token(stage@->submission.client_request_token),
    {
        self.query_with_token(query, fresh_token())
    }

    /// Opens a query with a token of the caller's choice.
    pub fn query_with_token(&self, query: &str, token: String) -> (stage: Stage)
        ensures
            stage@ == self@.opening(query@, token@),
    {
        Stage::Submitting {
            submission: Submission {
                client_request_token: token,
                query_string: query.to_owned(),
                output_location: self.result_bucket.clone(),
                database: self.database.clone(),
                work_group: copy_of(&self.workgroup),
            },
        }
    }
}

/// Each query is submitted on its own: the submission carries the token
/// that was drawn for it, so that two submissions of one query under two
/// tokens differ, in the token and in nothing else; and once the service
/// has answered, nothing of a submission enters into what the replies lead
/// to, so that no query sees what another brought.
pub proof fn lemma_submissions_stand_alone(
    athena: AthenaView,
    query: Seq<char>,
    token: Seq<char>,
    other_token: Seq<char>,
    replies: Seq<ReplyView>,
)
    ensures
        athena.submission(query, token).client_request_token == token,
        token != other_token ==> athena.submission(query, token) != athena.submission(
            query,
            other_token,
        ),
        athena.submission(query, token) == (SubmissionView {
            client_request_token: token,
            ..athena.submission(query, other_token)
        }),
        replies.len() > 0 ==> athena.opening(query, token).run(replies) == athena.opening(
            query,
            other_token,
        ).run(replies),
{
}

} // verus!
