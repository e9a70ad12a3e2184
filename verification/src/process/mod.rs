//! Process identity of the client behind a connection.
use vstd::prelude::*;
use vstd::string::*;
use crate::text::{dec, decimal_string};

pub mod retriever;

verus! {

/// Userspace representation of process information.
#[derive(Debug, Clone)]
pub struct ProcessInfo {
    /// User ID of the process
    pub uid: u32,
    /// Username (resolved from uid)
    pub username: String,
    /// Process ID
    pub pid: u32,
    /// Executable file path
    pub executable: String,
    /// Command line arguments
    pub cmdline: String,
}

impl ProcessInfo {
    /// Create a new ProcessInfo
    pub fn new(uid: u32, username: String, pid: u32, executable: String, cmdline: String) -> (r: Self)
        ensures
            r.uid == uid,
            r.username == username,
            r.pid == pid,
            r.executable == executable,
            r.cmdline == cmdline,
    {
        ProcessInfo { uid, username, pid, executable, cmdline }
    }
}

impl ProcessInfo {
    /// A copy of this record.
    pub fn duplicate(&self) -> (r: Self)
        ensures
            r == *self,
    {
        ProcessInfo {
            uid: self.uid,
            username: self.username.clone(),
            pid: self.pid,
            executable: self.executable.clone(),
            cmdline: self.cmdline.clone(),
        }
    }
}

/// The five headers that carry a client's process metadata, in order.
pub open spec fn forwarded_process_headers(info: ProcessInfo) -> Seq<(Seq<char>, Seq<char>)> {
    seq![
        ("X-Forwarded-Uid"@, dec(info.uid as nat)),
        ("X-Forwarded-Username"@, info.username@),
        ("X-Forwarded-Pid"@, dec(info.pid as nat)),
        ("X-Forwarded-Process-Name"@, info.executable@),
        ("X-Forwarded-Process-Args"@, info.cmdline@),
    ]
}

impl ProcessInfo {
    /// The headers that carry this process's metadata: uid, username, pid, executable and
    /// command line.
    pub fn forwarded_headers(&self) -> (r: Vec<(String, String)>)
        ensures
            r@.len() == 5,
            forall|i: int| 0 <= i < 5 ==> (#[trigger] r@[i]).0@ == forwarded_process_headers(*self)[i].0
                && r@[i].1@ == forwarded_process_headers(*self)[i].1,
    {
        let mut r: Vec<(String, String)> = Vec::new();
        r.push((String::from_str("X-Forwarded-Uid"), decimal_string(self.uid as u64)));
        r.push((String::from_str("X-Forwarded-Username"), self.username.clone()));
        r.push((String::from_str("X-Forwarded-Pid"), decimal_string(self.pid as u64)));
        r.push((String::from_str("X-Forwarded-Process-Name"), self.executable.clone()));
        r.push((String::from_str("X-Forwarded-Process-Args"), self.cmdline.clone()));
        r
    }
}

} // verus!
