//! Connection metadata for the local client: which process it is, which
//! port it listens on and which token it expects. The process listing and
//! the command line are read by the caller; everything that interprets
//! their text is verified here.
use vstd::prelude::*;
use vstd::string::*;

use crate::errors::HelperError;
use crate::text::{
    all_digits, dec_digits, dec_val, find_run_end, find_sep, is_prefix_of, is_space,
    lemma_run_end_bounds, lemma_seg_end_bounds, parse_dec, run_end, seg_end, starts_with, trim,
    trim_quotes, trim_quotes_spec, trimmed, u64_to_string,
};

verus! {

/// The first line of a process listing that is, once trimmed, a plain
/// decimal number fitting `u32`; lines before it are skipped.
pub open spec fn first_dec_line(s: Seq<char>, i: int) -> Option<int>
    decreases s.len() - i,
    via first_dec_line_dec
{
    if i < 0 || i > s.len() {
        None
    } else {
        let j = seg_end(s, '\n', i);
        let t = trimmed(s.subrange(i, j));
        if t.len() > 0 && all_digits(t) && dec_val(t) <= u32::MAX {
            Some(dec_val(t))
        } else if j >= s.len() {
            None
        } else {
            first_dec_line(s, j + 1)
        }
    }
}

#[via_fn]
proof fn first_dec_line_dec(s: Seq<char>, i: int) {
    if 0 <= i <= s.len() {
        lemma_seg_end_bounds(s, '\n', i);
    }
}

/// First process id in a listing, read line by line as the caller's
/// `wmic`-style query prints it.
pub fn first_pid_in_listing(text: &str) -> (r: Option<u32>)
    ensures
        match r {
            Some(v) => first_dec_line(text@, 0) == Some(v as int),
            None => first_dec_line(text@, 0) is None,
        },
{
    let n = text.unicode_len();
    let mut i: usize = 0;
    loop
        invariant
            0 <= i <= n == text@.len(),
            first_dec_line(text@, 0) == first_dec_line(text@, i as int),
        decreases n - i,
    {
        let j = find_sep(text, '\n', i);
        let line = text.substring_char(i, j);
        let t = trim(line);
        match parse_dec(t, 0xFFFF_FFFF) {
            Some(v) => {
                return Some(v as u32);
            },
            None => {
                if j >= n {
                    return None;
                }
                i = j + 1;
            },
        }
    }
}

/// What one quote-trimmed command-line argument contributes to the port
/// and token discovered so far: a port argument replaces the port (an
/// unparsable value makes it zero), a token argument replaces the token,
/// anything else changes nothing.
pub open spec fn apply_arg(w: Seq<char>, port: int, token: Seq<char>) -> (int, Seq<char>) {
    if is_prefix_of("--app-port="@, w) {
        let v = w.subrange("--app-port="@.len() as int, w.len() as int);
        (
            if v.len() > 0 && all_digits(v) && dec_val(v) <= u16::MAX {
                dec_val(v)
            } else {
                0
            },
            token,
        )
    } else if is_prefix_of("--remoting-auth-token="@, w) {
        (port, w.subrange("--remoting-auth-token="@.len() as int, w.len() as int))
    } else {
        (port, token)
    }
}

/// Fold `apply_arg` over the whitespace-separated arguments of a command
/// line, each trimmed of surrounding quotes.
pub open spec fn scan_args(s: Seq<char>, i: int, port: int, token: Seq<char>) -> (int, Seq<char>)
    decreases s.len() - i,
    via scan_args_dec
{
    if i < 0 || i >= s.len() {
        (port, token)
    } else if is_space(s[i]) {
        scan_args(s, i + 1, port, token)
    } else {
        let j = run_end(s, i);
        let w = trim_quotes_spec(s.subrange(i, j));
        let pt = apply_arg(w, port, token);
        scan_args(s, j, pt.0, pt.1)
    }
}

#[via_fn]
proof fn scan_args_dec(s: Seq<char>, i: int, port: int, token: Seq<char>) {
    if 0 <= i < s.len() && !is_space(s[i]) {
        lemma_run_end_bounds(s, i);
    }
}

/// The base address the client is reached under, given a token and a port.
pub open spec fn host_url_chars(token: Seq<char>, port: int) -> Seq<char> {
    "riot:"@ + token + "@127.0.0.1:"@ + dec_digits(port as nat)
}

/// Endpoint of the running client: process id, port, token, and the
/// composed host address.
pub struct LcuMeta {
    pub pid: u32,
    pub port: u16,
    pub token: String,
    pub host_url: String,
}

impl Default for LcuMeta {
    fn default() -> (r: Self)
        ensures
            r.pid == 0,
            r.port == 0,
            r.token@ == Seq::<char>::empty(),
            r.host_url@ == Seq::<char>::empty(),
    {
        LcuMeta { pid: 0, port: 0, token: String::new(), host_url: String::new() }
    }
}

impl LcuMeta {
    /// The cached address may be reused: the process is unchanged and an
    /// address was already composed.
    pub fn is_cached(&self, pid: u32) -> (r: bool)
        ensures
            r == (pid == self.pid && self.host_url@.len() > 0),
    {
        pid == self.pid && self.host_url.as_str().unicode_len() > 0
    }

    /// Read port and token out of the client's command line and compose the
    /// host address. A missing or invalid token or port is a terminal
    /// discovery error — the command line was readable but yielded no
    /// usable credentials (`ClientCMDLineFailed`) — and the previous
    /// address is kept; an unparsable or out-of-range port counts as
    /// missing.
    pub fn absorb_cmdline(&mut self, pid: u32, cmdline: &str) -> (r: Result<String, HelperError>)
        ensures
            ({
                let pt = scan_args(cmdline@, 0, old(self).port as int, old(self).token@);
                &&& final(self).pid == pid
                &&& final(self).port as int == pt.0
                &&& final(self).token@ == pt.1
                &&& if pt.1.len() == 0 || pt.0 == 0 {
                    &&& r == Err::<String, HelperError>(HelperError::ClientCMDLineFailed)
                    &&& final(self).host_url == old(self).host_url
                } else {
                    &&& final(self).host_url@ == host_url_chars(pt.1, pt.0)
                    &&& r matches Ok(u) && u@ == host_url_chars(pt.1, pt.0)
                }
            }),
    {
        self.pid = pid;
        let n = cmdline.unicode_len();
        let mut i: usize = 0;
        while i < n
            invariant
                0 <= i <= n == cmdline@.len(),
                scan_args(cmdline@, 0, old(self).port as int, old(self).token@) == scan_args(
                    cmdline@,
                    i as int,
                    self.port as int,
                    self.token@,
                ),
                self.pid == pid,
                self.host_url == old(self).host_url,
            decreases n - i,
        {
            let c = cmdline.get_char(i);
            if crate::text::char_is_space(c) {
                proof {
                    assert(scan_args(cmdline@, i as int, self.port as int, self.token@)
                        == scan_args(cmdline@, i + 1, self.port as int, self.token@));
                }
                i = i + 1;
            } else {
                let j = find_run_end(cmdline, i);
                proof {
                    lemma_run_end_bounds(cmdline@, i as int + 1);
                    assert(run_end(cmdline@, i as int) == run_end(cmdline@, i as int + 1));
                    assert(j > i);
                }
                let raw = cmdline.substring_char(i, j);
                let w = trim_quotes(raw);
                let ghost pre_port = self.port as int;
                let ghost pre_token = self.token@;
                if starts_with(w, "--app-port=") {
                    let wl = w.unicode_len();
                    let pl = "--app-port=".unicode_len();
                    let v = w.substring_char(pl, wl);
                    self.port = match parse_dec(v, 0xFFFF) {
                        Some(p) => p as u16,
                        None => 0,
                    };
                } else if starts_with(w, "--remoting-auth-token=") {
                    let wl = w.unicode_len();
                    let pl = "--remoting-auth-token=".unicode_len();
                    let v = w.substring_char(pl, wl);
                    self.token = v.to_owned();
                }
                proof {
                    let pt = apply_arg(w@, pre_port, pre_token);
                    assert(pt == (self.port as int, self.token@));
                    assert(scan_args(cmdline@, i as int, pre_port, pre_token) == scan_args(
                        cmdline@,
                        j as int,
                        pt.0,
                        pt.1,
                    ));
                }
                i = j;
            }
        }
        let token_empty = self.token.as_str().unicode_len() == 0;
        if token_empty || self.port == 0 {
            return Err(HelperError::ClientCMDLineFailed);
        }
        let port_str = u64_to_string(self.port as u64);
        let mut url = String::from_str("riot:");
        url.append(self.token.as_str());
        url.append("@127.0.0.1:");
        url.append(port_str.as_str());
        proof {
            assert(url@ =~= host_url_chars(self.token@, self.port as int));
        }
        self.host_url = url.clone();
        Ok(url)
    }
}

} // verus!
