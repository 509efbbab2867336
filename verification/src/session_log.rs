//! The record that is shipped to the sink, and what it is built from.

use vstd::prelude::*;

verus! {

/// A copy of an optional text.
pub fn copy_text(text: &Option<String>) -> (copy: Option<String>)
    ensures
        copy == *text,
{
    match text {
        Some(t) => Some(t.clone()),
        None => None,
    }
}

/// Who uploaded a record, from where and when.
#[derive(Debug)]
pub struct LogMetadata {
    pub developer_id: String,
    pub hostname: String,
    pub user_email: String,
    pub project_name: String,
    pub upload_batch_id: String,
    pub source_file: String,
    /// The time of the upload, as RFC 3339 text.
    pub uploaded_at: String,
}

impl Clone for LogMetadata {
    fn clone(&self) -> (copy: Self)
        ensures
            copy == *self,
    {
        LogMetadata {
            developer_id: self.developer_id.clone(),
            hostname: self.hostname.clone(),
            user_email: self.user_email.clone(),
            project_name: self.project_name.clone(),
            upload_batch_id: self.upload_batch_id.clone(),
            source_file: self.source_file.clone(),
            uploaded_at: self.uploaded_at.clone(),
        }
    }
}

/// One line of a session log as it was read, before any metadata is attached.
#[derive(Debug)]
pub struct SessionLogInput {
    pub uuid: String,
    /// RFC 3339 text.
    pub timestamp: String,
    pub session_id: String,
    pub agent_id: Option<String>,
    pub is_sidechain: Option<bool>,
    pub parent_uuid: Option<String>,
    pub user_type: Option<String>,
    pub message_type: String,
    pub slug: Option<String>,
    pub request_id: Option<String>,
    pub cwd: Option<String>,
    pub git_branch: Option<String>,
    pub version: Option<String>,
    /// The message, as JSON text; it is forwarded as it is.
    pub message: String,
    /// The result of a tool call, as JSON text.
    pub tool_use_result: Option<String>,
}

impl Clone for SessionLogInput {
    fn clone(&self) -> (copy: Self)
        ensures
            copy == *self,
    {
        SessionLogInput {
            uuid: self.uuid.clone(),
            timestamp: self.timestamp.clone(),
            session_id: self.session_id.clone(),
            agent_id: copy_text(&self.agent_id),
            is_sidechain: self.is_sidechain,
            parent_uuid: copy_text(&self.parent_uuid),
            user_type: copy_text(&self.user_type),
            message_type: self.message_type.clone(),
            slug: copy_text(&self.slug),
            request_id: copy_text(&self.request_id),
            cwd: copy_text(&self.cwd),
            git_branch: copy_text(&self.git_branch),
            version: copy_text(&self.version),
            message: self.message.clone(),
            tool_use_result: copy_text(&self.tool_use_result),
        }
    }
}

/// One record: a stable id, the payload, and where it came from.
#[derive(Debug)]
pub struct SessionLog {
    /// The stable unique id; records are deduplicated by it.
    pub uuid: String,
    /// RFC 3339 text.
    pub timestamp: String,
    pub session_id: String,
    pub agent_id: Option<String>,
    pub is_sidechain: Option<bool>,
    pub parent_uuid: Option<String>,
    pub user_type: Option<String>,
    pub message_type: String,
    pub slug: Option<String>,
    pub request_id: Option<String>,
    pub cwd: Option<String>,
    pub git_branch: Option<String>,
    pub version: Option<String>,
    /// The message, as JSON text; it is forwarded as it is.
    pub message: String,
    /// The result of a tool call, as JSON text.
    pub tool_use_result: Option<String>,
    pub metadata: LogMetadata,
}

impl Clone for SessionLog {
    fn clone(&self) -> (copy: Self)
        ensures
            copy == *self,
    {
        SessionLog {
            uuid: self.uuid.clone(),
            timestamp: self.timestamp.clone(),
            session_id: self.session_id.clone(),
            agent_id: copy_text(&self.agent_id),
            is_sidechain: self.is_sidechain,
            parent_uuid: copy_text(&self.parent_uuid),
            user_type: copy_text(&self.user_type),
            message_type: self.message_type.clone(),
            slug: copy_text(&self.slug),
            request_id: copy_text(&self.request_id),
            cwd: copy_text(&self.cwd),
            git_branch: copy_text(&self.git_branch),
            version: copy_text(&self.version),
            message: self.message.clone(),
            tool_use_result: copy_text(&self.tool_use_result),
            metadata: self.metadata.clone(),
        }
    }
}

/// Why a record could not be made.
#[derive(Clone, Copy, Debug, PartialEq, Eq, Structural)]
pub enum SessionLogError {
    /// The id is the empty text.
    EmptyUuid,
}

impl SessionLogError {
    /// What went wrong, in words.
    pub fn to_string(&self) -> (text: String)
        ensures
            text@ == "UUID cannot be empty"@,
    {
        "UUID cannot be empty".to_owned()
    }
}

impl SessionLog {
    /// Makes a record; the id must not be empty.
    pub fn new(
        uuid: String,
        timestamp: String,
        session_id: String,
        agent_id: Option<String>,
        is_sidechain: Option<bool>,
        parent_uuid: Option<String>,
        user_type: Option<String>,
        message_type: String,
        slug: Option<String>,
        request_id: Option<String>,
        cwd: Option<String>,
        git_branch: Option<String>,
        version: Option<String>,
        message: String,
        tool_use_result: Option<String>,
        metadata: LogMetadata,
    ) -> (made: Result<SessionLog, SessionLogError>)
        ensures
            uuid@.len() == 0 ==> made == Err::<SessionLog, SessionLogError>(
                SessionLogError::EmptyUuid,
            ),
            uuid@.len() > 0 ==> made == Ok::<SessionLog, SessionLogError>(
                (SessionLog {
                    uuid,
                    timestamp,
                    session_id,
                    agent_id,
                    is_sidechain,
                    parent_uuid,
                    user_type,
                    message_type,
                    slug,
                    request_id,
                    cwd,
                    git_branch,
                    version,
                    message,
                    tool_use_result,
                    metadata,
                }),
            ),
    {
        if uuid.as_str().is_empty() {
            return Err(SessionLogError::EmptyUuid);
        }
        Ok(
            SessionLog {
                uuid,
                timestamp,
                session_id,
                agent_id,
                is_sidechain,
                parent_uuid,
                user_type,
                message_type,
                slug,
                request_id,
                cwd,
                git_branch,
                version,
                message,
                tool_use_result,
                metadata,
            },
        )
    }
}

/// The ids of `logs`, in order.
pub open spec fn uuids_of(logs: Seq<SessionLog>) -> Seq<Seq<char>> {
    logs.map_values(|log: SessionLog| log.uuid@)
}

} // verus!
