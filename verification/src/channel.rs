//! One-shot commands over an SSH channel: what the channel's messages add
//! up to (output, error output, exit status), the download command and its
//! outcome, and where identity files are looked for.
//!
//! The connection and the channel are the caller's; it hands each message
//! to [`ChannelOutput::on_message`] until that says to stop.
use vstd::prelude::*;
use crate::ssh::CommandOutput;
use crate::text::{decimal, push_str, push_u64, string_from};

verus! {

/// A message of an SSH channel, as far as a one-shot command cares.
pub enum ChannelMessage {
    /// Standard output.
    Data(Vec<u8>),
    /// Extended data: stream 1 is standard error.
    ExtendedData { data: Vec<u8>, ext: u32 },
    ExitStatus(u32),
    Eof,
    Close,
    /// Any other message.
    Other,
    /// The channel has no more messages.
    Ended,
}

/// What a command's channel has sent so far.
pub struct ChannelOutput {
    pub stdout: Vec<u8>,
    pub stderr: Vec<u8>,
    pub exit_status: Option<u32>,
}

/// The characters of bytes read as UTF-8, each invalid sequence replaced
/// by U+FFFD (`String::from_utf8_lossy`).
pub uninterp spec fn utf8_lossy(bytes: Seq<u8>) -> Seq<char>;

/// `String::from_utf8_lossy`, made an owned string. The contract names the
/// result; UTF-8 decoding is not restated.
#[verifier::external_body]
fn lossy_string(bytes: &[u8]) -> (r: String)
    ensures
        r@ == utf8_lossy(bytes@),
{
    String::from_utf8_lossy(bytes).to_string()
}

impl ChannelOutput {
    /// Nothing received.
    pub fn new() -> (r: ChannelOutput)
        ensures
            r.stdout@ == Seq::<u8>::empty(),
            r.stderr@ == Seq::<u8>::empty(),
            r.exit_status is None,
    {
        ChannelOutput { stdout: Vec::new(), stderr: Vec::new(), exit_status: None }
    }

    /// Take a message; `false` when the channel is done (closed or ended).
    /// Output and standard error accumulate; the last exit status counts.
    pub fn on_message(&mut self, m: ChannelMessage) -> (go_on: bool)
        ensures
            go_on == !(m is Close || m is Ended),
            final(self).stdout@ == match m {
                ChannelMessage::Data(d) => old(self).stdout@ + d@,
                _ => old(self).stdout@,
            },
            final(self).stderr@ == match m {
                ChannelMessage::ExtendedData { data, ext } => if ext == 1 {
                    old(self).stderr@ + data@
                } else {
                    old(self).stderr@
                },
                _ => old(self).stderr@,
            },
            final(self).exit_status == match m {
                ChannelMessage::ExitStatus(s) => Some(s),
                _ => old(self).exit_status,
            },
    {
        match m {
            ChannelMessage::Data(d) => {
                append(&mut self.stdout, &d);
                true
            },
            ChannelMessage::ExtendedData { data, ext } => {
                if ext == 1 {
                    append(&mut self.stderr, &data);
                }
                true
            },
            ChannelMessage::ExitStatus(s) => {
                self.exit_status = Some(s);
                true
            },
            ChannelMessage::Eof => true,
            ChannelMessage::Close => false,
            ChannelMessage::Other => true,
            ChannelMessage::Ended => false,
        }
    }

    /// The command's result: the output decoded, and the exit status (as a
    /// signed number, bits kept), or -1 when none came.
    pub fn finish(self) -> (r: CommandOutput)
        ensures
            r.stdout@ == utf8_lossy(self.stdout@),
            r.stderr@ == utf8_lossy(self.stderr@),
            r.exit_code == match self.exit_status {
                Some(c) => c as i32,
                None => -1i32,
            },
    {
        let stdout = lossy_string(self.stdout.as_slice());
        let stderr = lossy_string(self.stderr.as_slice());
        let exit_code: i32 = match self.exit_status {
            Some(c) => c as i32,
            None => -1,
        };
        CommandOutput { stdout, stderr, exit_code }
    }
}

fn append(v: &mut Vec<u8>, d: &Vec<u8>)
    ensures
        final(v)@ == old(v)@ + d@,
{
    let mut i: usize = 0;
    while i < d.len()
        invariant
            i <= d@.len(),
            v@ == old(v)@ + d@.take(i as int),
        decreases d@.len() - i,
    {
        v.push(d[i]);
        i = i + 1;
        assert(d@.take(i as int) =~= d@.take(i - 1).push(d@[i - 1]));
    }
    assert(d@.take(i as int) =~= d@);
}

/// `curl --progress-bar -o '<dest>' '<url>'`.
pub fn download_command(url: &str, dest_path: &str) -> (r: String)
    ensures
        r@ == "curl --progress-bar -o '"@ + dest_path@ + "' '"@ + url@ + "'"@,
{
    let mut s = string_from("curl --progress-bar -o '");
    push_str(&mut s, dest_path);
    push_str(&mut s, "' '");
    push_str(&mut s, url);
    push_str(&mut s, "'");
    s
}

/// A download's outcome from curl's exit status (1 when none came).
pub fn download_outcome(exit_status: Option<u32>) -> (r: Result<(), String>)
    ensures
        match exit_status {
            Some(0) => r is Ok,
            Some(c) => r matches Err(e) && e@ == "Download failed (exit code "@ + decimal(c as nat)
                + ")"@,
            None => r matches Err(e) && e@ == "Download failed (exit code 1)"@,
        },
{
    let code: u32 = match exit_status {
        Some(c) => c,
        None => 1,
    };
    if code != 0 {
        let mut e = string_from("Download failed (exit code ");
        push_u64(&mut e, code as u64);
        push_str(&mut e, ")");
        proof {
            if exit_status is None {
                reveal_strlit("Download failed (exit code ");
                reveal_strlit(")");
                reveal_strlit("Download failed (exit code 1)");
                assert(decimal(1) =~= seq!['1']);
                assert(e@ =~= "Download failed (exit code 1)"@);
            }
        }
        return Err(e);
    }
    Ok(())
}

/// The identity files tried, in order, under a home directory.
pub fn identity_files(home: &str) -> (r: Vec<String>)
    ensures
        r@.len() == 3,
        r@[0]@ == home@ + "/.ssh/id_ed25519"@,
        r@[1]@ == home@ + "/.ssh/id_rsa"@,
        r@[2]@ == home@ + "/.ssh/id_ecdsa"@,
{
    let mut a = string_from(home);
    push_str(&mut a, "/.ssh/id_ed25519");
    let mut b = string_from(home);
    push_str(&mut b, "/.ssh/id_rsa");
    let mut c = string_from(home);
    push_str(&mut c, "/.ssh/id_ecdsa");
    let mut v: Vec<String> = Vec::new();
    v.push(a);
    v.push(b);
    v.push(c);
    v
}

/// Authentication failed by every method.
pub fn auth_failure(user: &str) -> (r: String)
    ensures
        r@ == "SSH authentication failed for "@ + user@
            + ": no agent keys or identity files accepted"@,
{
    let mut s = string_from("SSH authentication failed for ");
    push_str(&mut s, user);
    push_str(&mut s, ": no agent keys or identity files accepted");
    s
}

} // verus!
