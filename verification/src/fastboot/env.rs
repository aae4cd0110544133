//! Importing a text environment over fastboot.
use vstd::prelude::*;
use vstd::utf8::*;

use super::command::Command;
use super::vendor;
use crate::bytes;
use crate::error;
use crate::error::{Error, Outcome};
use crate::text;

verus! {

/// Where an import stands.
#[derive(Clone, Copy, PartialEq, Eq, Structural)]
pub enum EnvState {
    /// The text is being downloaded.
    Download,
    /// The text is being imported.
    Import,
    /// The environment is being saved.
    Save,
    Finished,
}

/// What an import wants done.
pub enum EnvAction {
    Download { data: Vec<u8> },
    /// Run a console command and bring back its output.
    Console(Command),
    Finish(Outcome),
}

/// How the last action went.
pub enum EnvReply {
    Done,
    Output(String),
    Failed,
}

/// An import of an environment.
#[derive(Clone, Copy)]
pub struct EnvWrite {
    /// Bytes of the text.
    pub size: usize,
    /// Whether the environment is to be saved.
    pub save: bool,
    pub state: EnvState,
}

/// The text with a line break at its end.
pub open spec fn terminated(env: Seq<char>) -> Seq<char> {
    if env.len() > 0 && env.last() == '\n' {
        env
    } else {
        env.push('\n')
    }
}

impl EnvWrite {
    /// Whether a reply answers the action that is out.
    pub open spec fn awaits(self, reply: EnvReply) -> bool {
        match self.state {
            EnvState::Download => reply is Done || reply is Failed,
            EnvState::Import | EnvState::Save => reply is Output || reply is Failed,
            EnvState::Finished => false,
        }
    }

    /// Starts an import. The text has to be ASCII.
    pub fn write_env(env: &str, save: bool) -> (started: Result<(Self, EnvAction), Error>)
        ensures
            started is Ok <==> is_ascii_chars(env@),
            started matches Ok(s) ==> {
                let sent = encode_utf8(terminated(env@));
                &&& s.0.size == sent.len()
                &&& s.0.save == save
                &&& s.0.state == EnvState::Download
                &&& s.1 matches EnvAction::Download { data } && data@ == sent
            },
            started matches Err(e) ==> error::is_invalid(e, "env data must be ascii"@),
    {
        if !env.is_ascii() {
            return Err(error::invalid("env data must be ascii"));
        }
        let mut whole = env.to_owned();
        let chars = text::chars_of(env);
        let count: usize = chars.len();
        if count == 0 || chars[count - 1] != '\n' {
            whole.push('\n');
        }
        assert(whole@ =~= terminated(env@));
        let spelled = whole.as_str().as_bytes();
        let size: usize = spelled.len();
        let data = bytes::copy_between(spelled, 0, size);
        assert(data@ =~= encode_utf8(terminated(env@)));
        Ok((EnvWrite { size, save, state: EnvState::Download }, EnvAction::Download { data }))
    }

    /// What the console has to say for the import to go on, and what becomes of the import when it complains.
    pub open spec fn rejects(output: Seq<char>, what: Seq<char>, post: Self, action: EnvAction) -> bool {
        &&& post.state == EnvState::Finished
        &&& action matches EnvAction::Finish(Outcome::Failed(e)) && error::is_invalid(e, what + text::trimmed(output))
    }

    /// One step of an import.
    pub open spec fn advances(pre: Self, reply: EnvReply, post: Self, action: EnvAction) -> bool {
        &&& post.size == pre.size
        &&& post.save == pre.save
        &&& match reply {
            EnvReply::Failed => {
                &&& post.state == EnvState::Finished
                &&& action matches EnvAction::Finish(Outcome::Rethrow)
            },
            EnvReply::Done => {
                &&& post.state == EnvState::Import
                &&& action == EnvAction::Console(Command::ImportEnv { size: pre.size as u64 })
            },
            EnvReply::Output(output) => {
                let bad = vendor::is_complaint(text::lowered(output@));
                if pre.state == EnvState::Import && bad {
                    Self::rejects(output@, "the bootloader rejected the environment: "@, post, action)
                } else if bad {
                    Self::rejects(output@, "saving the environment failed: "@, post, action)
                } else if pre.state == EnvState::Import && pre.save {
                    &&& post.state == EnvState::Save
                    &&& action == EnvAction::Console(Command::SaveEnv)
                } else {
                    &&& post.state == EnvState::Finished
                    &&& action matches EnvAction::Finish(Outcome::Done)
                }
            },
        }
    }

    /// What becomes of an import by whether the console complained.
    pub fn judge(&mut self, output: &str, complaint: bool) -> (action: EnvAction)
        requires
            old(self).state == EnvState::Import || old(self).state == EnvState::Save,
        ensures
            final(self).size == old(self).size,
            final(self).save == old(self).save,
            if complaint {
                Self::rejects(
                    output@,
                    if old(self).state == EnvState::Import {
                        "the bootloader rejected the environment: "@
                    } else {
                        "saving the environment failed: "@
                    },
                    *final(self),
                    action,
                )
            } else if old(self).state == EnvState::Import && old(self).save {
                &&& final(self).state == EnvState::Save
                &&& action == EnvAction::Console(Command::SaveEnv)
            } else {
                &&& final(self).state == EnvState::Finished
                &&& action matches EnvAction::Finish(Outcome::Done)
            },
    {
        let importing: bool = self.state == EnvState::Import;
        if complaint {
            self.state = EnvState::Finished;
            let mut shown = if importing {
                "the bootloader rejected the environment: ".to_owned()
            } else {
                "saving the environment failed: ".to_owned()
            };
            let inner = text::trim(output);
            shown.append(inner.as_str());
            return EnvAction::Finish(Outcome::Failed(Error::InvalidOperation(shown)));
        }
        if importing && self.save {
            self.state = EnvState::Save;
            return EnvAction::Console(Command::SaveEnv);
        }
        self.state = EnvState::Finished;
        EnvAction::Finish(Outcome::Done)
    }

    /// Takes in how the last action went and gives the next one.
    pub fn resume(&mut self, reply: EnvReply) -> (action: EnvAction)
        requires
            old(self).awaits(reply),
        ensures
            Self::advances(*old(self), reply, *final(self), action),
    {
        match reply {
            EnvReply::Failed => {
                self.state = EnvState::Finished;
                EnvAction::Finish(Outcome::Rethrow)
            },
            EnvReply::Done => {
                self.state = EnvState::Import;
                EnvAction::Console(Command::ImportEnv { size: self.size as u64 })
            },
            EnvReply::Output(output) => {
                let complaint: bool = vendor::complains(output.as_str());
                self.judge(output.as_str(), complaint)
            },
        }
    }
}

/// An environment is sent with exactly one line break added, and only if it does not end in one.
pub proof fn environments_end_in_a_line_break(env: Seq<char>)
    ensures
        terminated(env).len() > 0 && terminated(env).last() == '\n',
        env.len() > 0 && env.last() == '\n' ==> terminated(env) == env,
        env.len() == 0 || env.last() != '\n' ==> terminated(env) == env + seq!['\n'],
{
    assert(env.push('\n') =~= env + seq!['\n']);
}

/// An environment is downloaded, imported, and saved if that was asked for; a complaint of the console, or a failure,
/// ends it there. The complaint is shown.
pub proof fn environments_are_imported_then_saved(pre: EnvWrite, reply: EnvReply, post: EnvWrite, action: EnvAction)
    requires
        pre.awaits(reply),
        EnvWrite::advances(pre, reply, post, action),
    ensures
        post.size == pre.size && post.save == pre.save,
        reply is Failed ==> action == EnvAction::Finish(Outcome::Rethrow),
        pre.state == EnvState::Download && reply is Done ==> {
            &&& action == EnvAction::Console(Command::ImportEnv { size: pre.size as u64 })
            &&& post.state == EnvState::Import
        },
        reply matches EnvReply::Output(output) ==> {
            let bad = vendor::is_complaint(text::lowered(output@));
            &&& pre.state == EnvState::Import && !bad && pre.save ==> action == EnvAction::Console(Command::SaveEnv)
                && post.state == EnvState::Save
            &&& pre.state == EnvState::Import && !bad && !pre.save ==> action == EnvAction::Finish(Outcome::Done)
            &&& pre.state == EnvState::Save && !bad ==> action == EnvAction::Finish(Outcome::Done)
            &&& pre.state == EnvState::Import && bad ==> (action matches EnvAction::Finish(
                Outcome::Failed(Error::InvalidOperation(shown)),
            ) && shown@ == "the bootloader rejected the environment: "@ + text::trimmed(output@))
            &&& pre.state == EnvState::Save && bad ==> (action matches EnvAction::Finish(
                Outcome::Failed(Error::InvalidOperation(shown)),
            ) && shown@ == "saving the environment failed: "@ + text::trimmed(output@))
        },
{
}

/// A write of the environment has ended exactly when its action says so, and keeps its size and whether it saves.
pub proof fn writes_end_when_they_say_so(pre: EnvWrite, reply: EnvReply, post: EnvWrite, action: EnvAction)
    requires
        pre.awaits(reply),
        EnvWrite::advances(pre, reply, post, action),
    ensures
        action is Finish <==> post.state == EnvState::Finished,
        post.size == pre.size,
        post.save == pre.save,
{
}

} // verus!
