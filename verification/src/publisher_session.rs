//! The state of the publisher desktop tool: which screen is shown, the
//! server session, the activity log (the newest 200 entries) and the
//! history of publications. The tool performs the requests and hands
//! their outcomes to these transitions.

use vstd::prelude::*;
use vstd::utf8::encode_utf8;
use crate::backend::sha3_256_digest;
use crate::crypto::{HybridKeyPair, compute_sha3_256_hex};
use crate::hex::hex_of;
use crate::models::{Platform, PublishPackageRequest};
use crate::publishing::{changelog_lines, changelog_of, prepare_publication, publication_request};
use crate::text::{concat_str, copy_string, str_eq};
use crate::version::{SemanticVersion, split_on, version_parse, version_parse_error};

verus! {

/// The most log entries kept.
pub const MAX_LOG_ENTRIES: usize = 200;

/// The screen shown.
#[derive(Clone, Copy, Debug, PartialEq, Eq, Structural)]
pub enum Screen {
    Login,
    CreateAccount,
    Main,
}

/// How a log entry is shown.
#[derive(Clone, Copy, Debug, PartialEq, Eq, Structural)]
pub enum LogLevel {
    Info,
    Success,
    Warning,
    Error,
}

/// One line of the activity log; `time` is the local time it was written.
#[derive(Clone, Debug)]
pub struct LogEntry {
    pub time: String,
    pub level: LogLevel,
    pub msg: String,
}

/// A publication made from the tool.
#[derive(Clone, Debug)]
pub struct PublishRecord {
    pub app_id: String,
    pub version: String,
    pub publisher_id: String,
    pub hash: String,
    pub timestamp: String,
    pub server: String,
}

/// A log entry as (time, level, message).
pub open spec fn entry_view(e: LogEntry) -> (Seq<char>, LogLevel, Seq<char>) {
    (e.time@, e.level, e.msg@)
}

pub open spec fn log_view(l: Seq<LogEntry>) -> Seq<(Seq<char>, LogLevel, Seq<char>)> {
    Seq::new(l.len(), |i: int| entry_view(l[i]))
}

/// The log after appending an entry: the oldest entry is dropped once
/// there are more than 200.
pub open spec fn appended(
    l: Seq<(Seq<char>, LogLevel, Seq<char>)>,
    e: (Seq<char>, LogLevel, Seq<char>),
) -> Seq<(Seq<char>, LogLevel, Seq<char>)> {
    if l.len() + 1 > MAX_LOG_ENTRIES {
        l.push(e).drop_first()
    } else {
        l.push(e)
    }
}

/// Appending to a log of at most 200 entries keeps at most 200, ends
/// with the new entry, and loses only the oldest entry, and only when the
/// log was full.
pub proof fn lemma_log_append(
    l: Seq<(Seq<char>, LogLevel, Seq<char>)>,
    e: (Seq<char>, LogLevel, Seq<char>),
)
    requires
        l.len() <= MAX_LOG_ENTRIES,
    ensures
        appended(l, e).len() <= MAX_LOG_ENTRIES,
        appended(l, e).last() == e,
        l.len() < MAX_LOG_ENTRIES ==> appended(l, e) == l.push(e),
        l.len() == MAX_LOG_ENTRIES ==> appended(l, e) == l.drop_first().push(e),
{
    if l.len() == MAX_LOG_ENTRIES {
        assert(l.push(e).drop_first() =~= l.drop_first().push(e));
    }
}

/// What the server answered to one request of a publication: accepted
/// with the answer's text (the package id for metadata), refused with the
/// body of the answer, or not reached, with the error.
#[derive(Clone, Debug)]
pub enum PublishReply {
    Accepted(String),
    Refused(String),
    Unreachable(String),
}

/// The publisher tool's state.
pub struct PublisherSession {
    pub screen: Screen,
    pub server_url: String,
    pub username: String,
    pub password: String,
    pub password_confirm: String,
    pub auth_error: String,
    pub auth_token: Option<String>,
    pub session_publisher_id: Option<String>,
    pub loaded_keypair: Option<HybridKeyPair>,
    pub app_id: String,
    pub version: String,
    pub selected_file: Option<String>,
    pub selected_file_size: u64,
    pub selected_file_hash: String,
    pub logs: Vec<LogEntry>,
    pub publish_history: Vec<PublishRecord>,
}

impl PublisherSession {
    /// The log holds at most 200 entries.
    pub open spec fn wf(&self) -> bool {
        self.logs@.len() <= MAX_LOG_ENTRIES
    }

    /// The state the tool starts in, with the publication history it
    /// read: the login screen, no session, no keys, version `1.0.0`.
    pub fn new(history: Vec<PublishRecord>) -> (r: Self)
        ensures
            r.wf(),
            r.screen == Screen::Login,
            r.server_url@ == "http://127.0.0.1:8443"@,
            r.auth_token is None,
            r.session_publisher_id is None,
            r.loaded_keypair is None,
            r.version@ == "1.0.0"@,
            r.selected_file is None,
            r.logs@.len() == 0,
            r.publish_history@ == history@,
    {
        PublisherSession {
            screen: Screen::Login,
            server_url: String::from_str("http://127.0.0.1:8443"),
            username: String::new(),
            password: String::new(),
            password_confirm: String::new(),
            auth_error: String::new(),
            auth_token: None,
            session_publisher_id: None,
            loaded_keypair: None,
            app_id: String::new(),
            version: String::from_str("1.0.0"),
            selected_file: None,
            selected_file_size: 0,
            selected_file_hash: String::new(),
            logs: Vec::new(),
            publish_history: history,
        }
    }

    /// Appends a log entry written at `time`, keeping the newest 200.
    pub fn log(&mut self, level: LogLevel, msg: &str, time: &str)
        requires
            old(self).wf(),
        ensures
            final(self).wf(),
            log_view(final(self).logs@) == appended(log_view(old(self).logs@), (time@, level, msg@)),
            final(self).screen == old(self).screen,
            final(self).auth_token == old(self).auth_token,
            final(self).session_publisher_id == old(self).session_publisher_id,
            final(self).auth_error == old(self).auth_error,
            final(self).publish_history == old(self).publish_history,
            final(self).loaded_keypair == old(self).loaded_keypair,
            final(self).password == old(self).password,
            final(self).password_confirm == old(self).password_confirm,
            final(self).server_url == old(self).server_url,
            final(self).selected_file == old(self).selected_file,
            final(self).app_id == old(self).app_id,
            final(self).version == old(self).version,
            final(self).selected_file_hash == old(self).selected_file_hash,
    {
        let e = LogEntry { time: String::from_str(time), level, msg: String::from_str(msg) };
        let ghost before = log_view(self.logs@);
        self.logs.push(e);
        assert(log_view(self.logs@) =~= before.push((time@, level, msg@)));
        if self.logs.len() > MAX_LOG_ENTRIES {
            let ghost pushed = self.logs@;
            self.logs.remove(0);
            assert(self.logs@ =~= pushed.drop_first());
            assert(log_view(self.logs@) =~= before.push((time@, level, msg@)).drop_first());
        }
    }

    /// Checks the account form before it is sent: the two passwords must
    /// match and be at least 6 bytes long.
    pub fn check_account_form(&self) -> (r: Result<(), String>)
        ensures
            if self.password@ != self.password_confirm@ {
                r matches Err(e) && e@ == "Passwords do not match"@
            } else if encode_utf8(self.password@).len() < 6 {
                r matches Err(e) && e@ == "Password must be at least 6 characters"@
            } else {
                r is Ok
            },
    {
        if !str_eq(self.password.as_str(), self.password_confirm.as_str()) {
            return Err(String::from_str("Passwords do not match"));
        }
        if self.password.as_str().as_bytes_vec().len() < 6 {
            return Err(String::from_str("Password must be at least 6 characters"));
        }
        Ok(())
    }

    /// The form was refused before being sent: the error is shown.
    pub fn account_form_refused(&mut self, error: String)
        ensures
            final(self).auth_error@ == error@,
            final(self).screen == old(self).screen,
            final(self).logs == old(self).logs,
    {
        self.auth_error = error;
    }

    /// The server accepted the login: the session's token and publisher
    /// (as far as the answer held them) are kept, the main screen shown
    /// and the password forgotten.
    pub fn login_succeeded(&mut self, token: Option<String>, publisher_id: Option<String>, time: &str)
        requires
            old(self).wf(),
        ensures
            final(self).wf(),
            final(self).auth_token == token,
            final(self).session_publisher_id == publisher_id,
            final(self).screen == Screen::Main,
            final(self).password@.len() == 0,
            final(self).auth_error@.len() == 0,
            log_view(final(self).logs@) == appended(
                log_view(old(self).logs@),
                (time@, LogLevel::Success, "✅ Logged in"@),
            ),
    {
        self.auth_token = token;
        self.session_publisher_id = publisher_id;
        self.screen = Screen::Main;
        self.password = String::new();
        self.auth_error = String::new();
        self.log(LogLevel::Success, "✅ Logged in", time);
    }

    /// The server refused the login with this answer.
    pub fn login_refused(&mut self, body: &str)
        ensures
            final(self).auth_error@ == "Login failed: "@ + body@,
            final(self).screen == old(self).screen,
            final(self).auth_token == old(self).auth_token,
            final(self).logs == old(self).logs,
    {
        self.auth_error = concat_str("Login failed: ", body);
    }

    /// The account was created: back to the login screen, passwords
    /// forgotten.
    pub fn account_created(&mut self, time: &str)
        requires
            old(self).wf(),
        ensures
            final(self).wf(),
            final(self).screen == Screen::Login,
            final(self).auth_error@.len() == 0,
            final(self).password@.len() == 0,
            final(self).password_confirm@.len() == 0,
            log_view(final(self).logs@) == appended(
                log_view(old(self).logs@),
                (time@, LogLevel::Success, "✅ Account created! You can now login."@),
            ),
    {
        self.auth_error = String::new();
        self.screen = Screen::Login;
        self.password = String::new();
        self.password_confirm = String::new();
        self.log(LogLevel::Success, "✅ Account created! You can now login.", time);
    }

    /// The server refused the account with this answer.
    pub fn account_refused(&mut self, body: &str)
        ensures
            final(self).auth_error@ == "Failed: "@ + body@,
            final(self).screen == old(self).screen,
            final(self).logs == old(self).logs,
    {
        self.auth_error = concat_str("Failed: ", body);
    }

    /// The server could not be reached.
    pub fn connection_failed(&mut self, error: &str)
        ensures
            final(self).auth_error@ == "Connection error: "@ + error@,
            final(self).screen == old(self).screen,
            final(self).logs == old(self).logs,
    {
        self.auth_error = concat_str("Connection error: ", error);
    }

    /// Logging out forgets the session and the keys and shows the login
    /// screen.
    pub fn logout(&mut self, time: &str)
        requires
            old(self).wf(),
        ensures
            final(self).wf(),
            final(self).auth_token is None,
            final(self).session_publisher_id is None,
            final(self).loaded_keypair is None,
            final(self).screen == Screen::Login,
            log_view(final(self).logs@) == appended(log_view(old(self).logs@), (time@, LogLevel::Info, "Logged out"@)),
    {
        self.auth_token = None;
        self.session_publisher_id = None;
        self.loaded_keypair = None;
        self.screen = Screen::Login;
        self.log(LogLevel::Info, "Logged out", time);
    }

    /// A file was chosen for publication: its size and SHA3-256 digest
    /// are shown.
    pub fn select_file(&mut self, path: &str, contents: &[u8])
        ensures
            final(self).selected_file matches Some(p) && p@ == path@,
            final(self).selected_file_size == contents@.len(),
            final(self).selected_file_hash@ == hex_of(sha3_256_digest(contents@)),
            final(self).logs == old(self).logs,
    {
        self.selected_file_size = contents.len() as u64;
        self.selected_file_hash = compute_sha3_256_hex(contents);
        self.selected_file = Some(String::from_str(path));
    }

    /// Publishing may start once a file is chosen and the application id
    /// and version are filled in.
    pub fn publish_ready(&self) -> (r: bool)
        ensures
            r == (self.selected_file is Some && self.app_id@.len() > 0 && self.version@.len() > 0),
    {
        self.selected_file.is_some() && self.app_id.as_str().unicode_len() > 0
            && self.version.as_str().unicode_len() > 0
    }

    /// Takes the server's answer to the metadata of a publication, which
    /// is sent before the package file: logs it at `time`, and tells
    /// whether the file is to be uploaded next (only after acceptance).
    pub fn metadata_replied(&mut self, reply: &PublishReply, time: &str) -> (upload_next: bool)
        requires
            old(self).wf(),
        ensures
            final(self).wf(),
            upload_next == (reply is Accepted),
            final(self).publish_history == old(self).publish_history,
            final(self).screen == old(self).screen,
            log_view(final(self).logs@) == appended(
                log_view(old(self).logs@),
                match reply {
                    PublishReply::Accepted(id) => (time@, LogLevel::Success, "✅ Metadata published! ID: "@ + id@),
                    PublishReply::Refused(body) => (time@, LogLevel::Error, "Metadata: "@ + body@),
                    PublishReply::Unreachable(e) => (time@, LogLevel::Error, "Metadata: "@ + e@),
                },
            ),
    {
        match reply {
            PublishReply::Accepted(id) => {
                let m = concat_str("✅ Metadata published! ID: ", id.as_str());
                self.log(LogLevel::Success, m.as_str(), time);
                true
            },
            PublishReply::Refused(body) => {
                let m = concat_str("Metadata: ", body.as_str());
                self.log(LogLevel::Error, m.as_str(), time);
                false
            },
            PublishReply::Unreachable(e) => {
                let m = concat_str("Metadata: ", e.as_str());
                self.log(LogLevel::Error, m.as_str(), time);
                false
            },
        }
    }

    /// Takes the server's answer to the upload of the package file: logs
    /// it at `time`, and only when the upload was accepted records the
    /// publication, at `timestamp`, of the session's application and
    /// version by the key pair's publisher, with the digest of the file.
    pub fn upload_replied(&mut self, reply: &PublishReply, timestamp: &str, time: &str)
        requires
            old(self).wf(),
            old(self).loaded_keypair is Some,
        ensures
            final(self).wf(),
            !(reply is Accepted) ==> final(self).publish_history@ == old(self).publish_history@,
            reply is Accepted ==> {
                let h = final(self).publish_history@;
                let r = h.last();
                &&& h.len() == old(self).publish_history@.len() + 1
                &&& h.drop_last() == old(self).publish_history@
                &&& r.app_id@ == old(self).app_id@
                &&& r.version@ == old(self).version@
                &&& r.publisher_id@ == old(self).loaded_keypair->0.publisher_id@
                &&& r.hash@ == old(self).selected_file_hash@
                &&& r.timestamp@ == timestamp@
                &&& r.server@ == old(self).server_url@
            },
            final(self).screen == old(self).screen,
            final(self).loaded_keypair == old(self).loaded_keypair,
            log_view(final(self).logs@) == appended(
                log_view(old(self).logs@),
                match reply {
                    PublishReply::Accepted(_) => (time@, LogLevel::Success, "✅ Uploaded and published"@),
                    PublishReply::Refused(body) => (time@, LogLevel::Error, "Upload: "@ + body@),
                    PublishReply::Unreachable(e) => (time@, LogLevel::Error, "Upload: "@ + e@),
                },
            ),
    {
        match reply {
            PublishReply::Accepted(_) => {
                self.log(LogLevel::Success, "✅ Uploaded and published", time);
                let publisher_id = match &self.loaded_keypair {
                    Some(k) => copy_string(&k.publisher_id),
                    None => String::new(),
                };
                let record = PublishRecord {
                    app_id: copy_string(&self.app_id),
                    version: copy_string(&self.version),
                    publisher_id,
                    hash: copy_string(&self.selected_file_hash),
                    timestamp: String::from_str(timestamp),
                    server: copy_string(&self.server_url),
                };
                let ghost before = self.publish_history@;
                self.publish_history.push(record);
                assert(self.publish_history@.drop_last() =~= before);
            },
            PublishReply::Refused(body) => {
                let m = concat_str("Upload: ", body.as_str());
                self.log(LogLevel::Error, m.as_str(), time);
            },
            PublishReply::Unreachable(e) => {
                let m = concat_str("Upload: ", e.as_str());
                self.log(LogLevel::Error, m.as_str(), time);
            },
        }
    }

    /// Starts a publication of the selected file, whose contents are
    /// `data`, logging at `time`. Nothing is sent (`None`, history
    /// unchanged) without a key pair, without a login token ("Not logged
    /// in"), without a selected file, or when the version is not `X.Y.Z`
    /// ("Bad version: ..."). Otherwise the file's digest becomes the
    /// session's file digest and the signed metadata request is returned.
    pub fn begin_publish(
        &mut self,
        data: &[u8],
        description: &str,
        changelog_text: &str,
        platform: Platform,
        time: &str,
    ) -> (r: Option<PublishPackageRequest>)
        requires
            old(self).wf(),
            old(self).loaded_keypair matches Some(k) ==> k.wf(),
        ensures
            final(self).wf(),
            final(self).publish_history == old(self).publish_history,
            final(self).screen == old(self).screen,
            final(self).loaded_keypair == old(self).loaded_keypair,
            final(self).auth_token == old(self).auth_token,
            final(self).selected_file == old(self).selected_file,
            final(self).app_id == old(self).app_id,
            final(self).version == old(self).version,
            final(self).server_url == old(self).server_url,
            r is None ==> final(self).selected_file_hash == old(self).selected_file_hash,
            old(self).loaded_keypair is None ==> r is None && final(self).logs == old(self).logs,
            old(self).loaded_keypair is Some && old(self).auth_token is None ==> r is None && log_view(
                final(self).logs@,
            ) == appended(log_view(old(self).logs@), (time@, LogLevel::Error, "Not logged in"@)),
            old(self).loaded_keypair is Some && old(self).auth_token is Some && old(self).selected_file is None
                ==> r is None && final(self).logs == old(self).logs,
            old(self).loaded_keypair is Some && old(self).auth_token is Some && old(self).selected_file is Some
                && version_parse(old(self).version@) is None ==> r is None && log_view(final(self).logs@)
                == appended(
                log_view(old(self).logs@),
                (time@, LogLevel::Error, "Bad version: "@ + version_parse_error(old(self).version@)),
            ),
            old(self).loaded_keypair is Some && old(self).auth_token is Some && old(self).selected_file is Some
                && version_parse(old(self).version@) is Some ==> {
                let h = hex_of(sha3_256_digest(data@));
                &&& r matches Some(req) && publication_request(
                    old(self).loaded_keypair->0,
                    old(self).app_id@,
                    version_parse(old(self).version@)->0,
                    old(self).version@,
                    old(self).selected_file->0@,
                    "bin"@,
                    data@,
                    description@,
                    changelog_of(split_on(changelog_text@, '\n')),
                    platform,
                    req,
                )
                &&& final(self).selected_file_hash@ == h
                &&& log_view(final(self).logs@) == appended(
                    appended(
                        appended(log_view(old(self).logs@), (time@, LogLevel::Info, "SHA3-256: "@ + h)),
                        (time@, LogLevel::Info, "Signing with Dilithium3 + Ed25519…"@),
                    ),
                    (time@, LogLevel::Success, "✅ Signed"@),
                )
            },
    {
        if self.loaded_keypair.is_none() {
            return None;
        }
        if self.auth_token.is_none() {
            self.log(LogLevel::Error, "Not logged in", time);
            return None;
        }
        let path = match &self.selected_file {
            Some(p) => copy_string(p),
            None => return None,
        };
        match SemanticVersion::parse(self.version.as_str()) {
            Ok(_) => {},
            Err(e) => {
                let m = concat_str("Bad version: ", e.as_str());
                self.log(LogLevel::Error, m.as_str(), time);
                return None;
            },
        }
        let hash = compute_sha3_256_hex(data);
        let m = concat_str("SHA3-256: ", hash.as_str());
        self.log(LogLevel::Info, m.as_str(), time);
        self.log(LogLevel::Info, "Signing with Dilithium3 + Ed25519…", time);
        let changelog = changelog_lines(changelog_text);
        let req = match &self.loaded_keypair {
            Some(kp) => prepare_publication(
                kp,
                self.app_id.as_str(),
                self.version.as_str(),
                path.as_str(),
                "bin",
                data,
                description,
                &changelog,
                platform,
            ),
            None => return None,
        };
        self.log(LogLevel::Success, "✅ Signed", time);
        self.selected_file_hash = hash;
        match req {
            Ok(q) => Some(q),
            Err(_) => None,
        }
    }
}

} // verus!
