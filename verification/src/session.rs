//! The transfer-session state machine.
//!
//! A coordinator owns at most one live session. Inbound transfer-protocol
//! events drive it: a send request (together with the user's selection)
//! creates the session and answers the transport, progress increments feed
//! the per-file byte counters, and a cancel tears the session down. The event
//! loop, the selection prompt and all rendering live outside the crate.

use vstd::prelude::*;

use crate::models::{ClientMessage, FileInfo, ReceiveSession, ReceiveStatus, SendRequest};

verus! {

/// Whether a file with the given id is on the list.
pub open spec fn has_file(files: Seq<FileInfo>, id: Seq<char>) -> bool {
    exists|i: int| 0 <= i < files.len() && files[i].id@ == id
}

/// The position of the file with the given id. Meaningful only when
/// `has_file` holds; unique when the ids are unique.
pub open spec fn file_index(files: Seq<FileInfo>, id: Seq<char>) -> int {
    choose|i: int| 0 <= i < files.len() && files[i].id@ == id
}

/// The fields of a session that no event ever changes once it exists.
pub open spec fn same_session_shape(a: ReceiveSession, b: ReceiveSession) -> bool {
    &&& a.sender == b.sender
    &&& a.files@ == b.files@
    &&& a.destination_directory == b.destination_directory
    &&& a.start_time == b.start_time
}

/// What handling one progress increment did.
pub enum ChunkOutcome {
    /// No session is active; under a correct transport this event is
    /// unreachable, so it is ignored with a diagnostic, not a crash.
    NoSession,
    /// The id names no file of the session; the event is ignored.
    UnknownFile,
    /// The counter advanced and the file is still incomplete.
    Progress,
    /// The increment would push the counter past the file's declared size;
    /// it is flagged and not applied.
    Flagged,
    /// This increment completed its file; the session continues.
    FileFinished,
    /// This increment completed the last file; the finished session is handed
    /// out and the coordinator returns to idle.
    SessionFinished(ReceiveSession),
}

/// What handling a cancel notice did.
pub enum CancelOutcome {
    /// No session was active; nothing to cancel.
    NoSession,
    /// The torn-down session, each unfinished file marked as ended in error.
    Cancelled(ReceiveSession),
}

/// The ordered list of offered file names, as handed to the selection
/// collaborator: the name of each offered file, in offer order, so that the
/// selected indices speak about the same order the user saw.
pub fn offered_file_names(req: &SendRequest) -> (r: Vec<String>)
    ensures
        r@.len() == req.files@.len(),
        forall|k: int| 0 <= k < req.files@.len() ==> r@[k]@ == req.files@[k].file_name@,
{
    let n = req.files.len();
    let mut out: Vec<String> = Vec::new();
    let mut i: usize = 0;
    while i < n
        invariant
            n == req.files@.len(),
            i <= n,
            out@.len() == i as int,
            forall|k: int| 0 <= k < i as int ==> out@[k]@ == req.files@[k].file_name@,
        decreases n - i,
    {
        out.push(req.files[i].file_name.clone());
        i += 1;
    }
    out
}

/// The single owner of the current receive session. At most one session is
/// active at a time: a send request that arrives while one is active is
/// rejected, not queued.
pub struct SessionCoordinator {
    pub session: Option<ReceiveSession>,
}

impl SessionCoordinator {
    /// The coordinator's invariant: whatever session occupies the slot is live.
    pub open spec fn wf(self) -> bool {
        match self.session {
            Some(s) => s.live(),
            None => true,
        }
    }

    /// No session is active.
    pub open spec fn is_idle(self) -> bool {
        self.session is None
    }

    /// A coordinator with no session.
    pub fn new() -> (r: Self)
        ensures
            r.is_idle(),
            r.wf(),
    {
        SessionCoordinator { session: None }
    }

    /// Handles an inbound send request once the user's selection is known.
    ///
    /// While a session is active the request is rejected outright (`None`):
    /// nothing changes and nothing is answered by this device's coordination
    /// logic. An empty selection declines the offer and creates no session.
    /// Otherwise the selected files — and only they, in selection order —
    /// become a fresh session with zeroed counters, and `Allow` carries
    /// exactly their ids.
    pub fn handle_send_request(
        &mut self,
        req: &SendRequest,
        selection: &Vec<usize>,
        destination_directory: String,
    ) -> (r: Option<ClientMessage>)
        requires
            old(self).wf(),
            req.wf(),
            forall|k: int| 0 <= k < selection@.len() ==> (selection@[k] as int) < req.files@.len(),
            forall|k1: int, k2: int|
                0 <= k1 < k2 < selection@.len() ==> selection@[k1] != selection@[k2],
        ensures
            final(self).wf(),
            old(self).session is Some ==> *final(self) == *old(self) && r is None,
            (old(self).session is None && selection@.len() == 0) ==> ({
                &&& final(self).session is None
                &&& r == Some(ClientMessage::Decline)
            }),
            (old(self).session is None && selection@.len() > 0) ==> ({
                &&& final(self).session is Some
                &&& ({
                    let s = final(self).session.unwrap();
                    &&& s.sender == req.device_info
                    &&& s.destination_directory == destination_directory
                    &&& s.files@.len() == selection@.len()
                    &&& (forall|k: int|
                        0 <= k < selection@.len()
                            ==> s.files@[k] == req.files@[selection@[k] as int])
                    &&& (forall|k: int| 0 <= k < selection@.len() ==> s.received@[k] == 0)
                    &&& (forall|k: int|
                        0 <= k < selection@.len()
                            ==> s.file_status@[k] == ReceiveStatus::Waiting)
                    &&& s.status == ReceiveStatus::Waiting
                })
                &&& r is Some
                &&& r.unwrap() is Allow
                &&& ({
                    let ids = r.unwrap()->Allow_0;
                    &&& ids@.len() == selection@.len()
                    &&& (forall|k: int|
                        0 <= k < selection@.len()
                            ==> ids@[k]@ == req.files@[selection@[k] as int].id@)
                })
            }),
    {
        if self.session.is_some() {
            return None;
        }
        if selection.len() == 0 {
            return Some(ClientMessage::Decline);
        }
        let mut session = ReceiveSession::new(req.device_info.duplicate(), destination_directory);
        let mut ids: Vec<String> = Vec::new();
        let mut k: usize = 0;
        while k < selection.len()
            invariant
                req.wf(),
                forall|m: int|
                    0 <= m < selection@.len() ==> (selection@[m] as int) < req.files@.len(),
                forall|m1: int, m2: int|
                    0 <= m1 < m2 < selection@.len() ==> selection@[m1] != selection@[m2],
                k <= selection@.len(),
                session.files@.len() == k as int,
                session.file_status@.len() == k as int,
                session.received@.len() == k as int,
                forall|m: int|
                    0 <= m < k as int ==> session.files@[m] == req.files@[selection@[m] as int],
                forall|m: int| 0 <= m < k as int ==> session.received@[m] == 0,
                forall|m: int|
                    0 <= m < k as int ==> session.file_status@[m] == ReceiveStatus::Waiting,
                ids@.len() == k as int,
                forall|m: int|
                    0 <= m < k as int ==> ids@[m]@ == req.files@[selection@[m] as int].id@,
                session.sender == req.device_info,
                session.destination_directory == destination_directory,
                session.status == ReceiveStatus::Waiting,
            decreases selection@.len() - k as int,
        {
            let idx = selection[k];
            let f = req.files[idx].duplicate();
            ids.push(f.id.clone());
            session.files.push(f);
            session.file_status.push(ReceiveStatus::Waiting);
            session.received.push(0);
            k += 1;
        }
        let msg = ClientMessage::Allow(ids);
        proof {
            assert forall|i: int, j: int|
                0 <= i < j < session.files@.len() implies session.files@[i].id@
                != session.files@[j].id@ by {
                assert(selection@[i] != selection@[j]);
            }
        }
        self.session = Some(session);
        Some(msg)
    }

    /// Applies one reported progress increment to the named file.
    ///
    /// The counter is cumulative; an increment that would pass the file's
    /// declared size is flagged and not applied. A counter that reaches the
    /// declared size finishes its file, and finishing the last file finishes
    /// the session, which is handed out while the coordinator returns to idle.
    pub fn handle_file_chunk(&mut self, file_id: &String, size: usize) -> (r: ChunkOutcome)
        requires
            old(self).wf(),
        ensures
            final(self).wf(),
            old(self).session is None ==> *final(self) == *old(self) && r is NoSession,
            (old(self).session is Some && !has_file(
                old(self).session.unwrap().files@,
                file_id@,
            )) ==> *final(self) == *old(self) && r is UnknownFile,
            (old(self).session is Some && has_file(
                old(self).session.unwrap().files@,
                file_id@,
            )) ==> ({
                let s = old(self).session.unwrap();
                let idx = file_index(s.files@, file_id@);
                let cur = s.received@[idx] as int;
                let tot = s.files@[idx].size as int;
                &&& (cur + size > tot ==> *final(self) == *old(self) && r is Flagged)
                &&& (cur + size < tot ==> ({
                    &&& r is Progress
                    &&& final(self).session is Some
                    &&& ({
                        let t = final(self).session.unwrap();
                        &&& same_session_shape(s, t)
                        &&& t.received@ == s.received@.update(idx, (cur + size) as usize)
                        &&& t.file_status@ == s.file_status@.update(
                            idx,
                            ReceiveStatus::Receiving,
                        )
                        &&& t.status == ReceiveStatus::Receiving
                    })
                }))
                &&& ((cur + size == tot && !(forall|j: int|
                    0 <= j < s.files@.len() && j != idx
                        ==> s.file_status@[j] == ReceiveStatus::Finished)) ==> ({
                    &&& r is FileFinished
                    &&& final(self).session is Some
                    &&& ({
                        let t = final(self).session.unwrap();
                        &&& same_session_shape(s, t)
                        &&& t.received@ == s.received@.update(idx, (cur + size) as usize)
                        &&& t.file_status@ == s.file_status@.update(idx, ReceiveStatus::Finished)
                        &&& t.status == ReceiveStatus::Receiving
                    })
                }))
                &&& ((cur + size == tot && (forall|j: int|
                    0 <= j < s.files@.len() && j != idx
                        ==> s.file_status@[j] == ReceiveStatus::Finished)) ==> ({
                    &&& r is SessionFinished
                    &&& final(self).session is None
                    &&& ({
                        let t = r->SessionFinished_0;
                        &&& same_session_shape(s, t)
                        &&& t.received@ == s.received@.update(idx, (cur + size) as usize)
                        &&& t.file_status@ == s.file_status@.update(idx, ReceiveStatus::Finished)
                        &&& t.status == ReceiveStatus::Finished
                        &&& t.all_files_finished()
                    })
                }))
            }),
    {
        match self.session.take() {
            None => ChunkOutcome::NoSession,
            Some(mut s) => {
                let n = s.files.len();
                let mut i: usize = 0;
                let mut idx: usize = n;
                while i < n && idx == n
                    invariant
                        n == s.files@.len(),
                        i <= n,
                        idx == n || (idx < i && s.files@[idx as int].id@ == file_id@),
                        idx == n ==> forall|m: int| 0 <= m < i ==> s.files@[m].id@ != file_id@,
                    decreases n - i,
                {
                    if s.files[i].id == *file_id {
                        idx = i;
                    }
                    i += 1;
                }
                if idx == n {
                    let out = ChunkOutcome::UnknownFile;
                    self.session = Some(s);
                    return out;
                }
                proof {
                    let picked = file_index(s.files@, file_id@);
                    assert(0 <= picked < s.files@.len() && s.files@[picked].id@ == file_id@);
                    assert(picked == idx as int);
                }
                let total = s.files[idx].size;
                let cur = s.received[idx];
                if size > total - cur {
                    let out = ChunkOutcome::Flagged;
                    self.session = Some(s);
                    return out;
                }
                let newv = cur + size;
                s.received.set(idx, newv);
                if newv == total {
                    let ghost prev = s.file_status@;
                    s.file_status.set(idx, ReceiveStatus::Finished);
                    let mut all_fin = true;
                    let mut j: usize = 0;
                    while j < n
                        invariant
                            n == s.file_status@.len(),
                            j <= n,
                            all_fin <==> (forall|m: int|
                                0 <= m < j ==> s.file_status@[m] == ReceiveStatus::Finished),
                        decreases n - j,
                    {
                        if !(s.file_status[j] == ReceiveStatus::Finished) {
                            all_fin = false;
                        }
                        j += 1;
                    }
                    proof {
                        if all_fin {
                            assert forall|j: int|
                                0 <= j < n && j != idx as int implies prev[j]
                                == ReceiveStatus::Finished by {
                                assert(s.file_status@[j] == ReceiveStatus::Finished);
                            }
                        } else {
                            let m = choose|m: int|
                                0 <= m < n && s.file_status@[m] != ReceiveStatus::Finished;
                            assert(m != idx as int && prev[m] != ReceiveStatus::Finished);
                        }
                    }
                    if all_fin {
                        s.status = ReceiveStatus::Finished;
                        ChunkOutcome::SessionFinished(s)
                    } else {
                        s.status = ReceiveStatus::Receiving;
                        self.session = Some(s);
                        ChunkOutcome::FileFinished
                    }
                } else {
                    s.file_status.set(idx, ReceiveStatus::Receiving);
                    s.status = ReceiveStatus::Receiving;
                    self.session = Some(s);
                    ChunkOutcome::Progress
                }
            },
        }
    }

    /// Tears the active session down.
    ///
    /// Every file that has not finished is marked as ended in error; the
    /// session's overall status records whether anything was left unfinished.
    /// The torn-down session is handed out and the coordinator is idle again.
    pub fn handle_cancel(&mut self) -> (r: CancelOutcome)
        requires
            old(self).wf(),
        ensures
            final(self).session is None,
            final(self).wf(),
            old(self).session is None ==> *final(self) == *old(self) && r is NoSession,
            old(self).session is Some ==> ({
                let s = old(self).session.unwrap();
                &&& r is Cancelled
                &&& ({
                    let t = r->Cancelled_0;
                    &&& same_session_shape(s, t)
                    &&& t.received@ == s.received@
                    &&& t.file_status@.len() == s.file_status@.len()
                    &&& (forall|m: int|
                        0 <= m < s.file_status@.len() ==> t.file_status@[m] == (
                        if s.file_status@[m] == ReceiveStatus::Finished {
                            ReceiveStatus::Finished
                        } else {
                            ReceiveStatus::FinishedWithErrors
                        }))
                    &&& t.status == (if s.all_files_finished() {
                        ReceiveStatus::Finished
                    } else {
                        ReceiveStatus::FinishedWithErrors
                    })
                })
            }),
    {
        match self.session.take() {
            None => CancelOutcome::NoSession,
            Some(mut s) => {
                let ghost orig = s.file_status@;
                let n = s.file_status.len();
                let mut i: usize = 0;
                let mut any_unfinished = false;
                while i < n
                    invariant
                        n == s.file_status@.len(),
                        orig.len() == n,
                        i <= n,
                        s.files@ == old(self).session.unwrap().files@,
                        s.sender == old(self).session.unwrap().sender,
                        s.destination_directory == old(self).session.unwrap().destination_directory,
                        s.start_time == old(self).session.unwrap().start_time,
                        s.received@ == old(self).session.unwrap().received@,
                        s.status == old(self).session.unwrap().status,
                        forall|m: int| i as int <= m < n ==> s.file_status@[m] == orig[m],
                        forall|m: int|
                            0 <= m < i as int ==> s.file_status@[m] == (
                            if orig[m] == ReceiveStatus::Finished {
                                ReceiveStatus::Finished
                            } else {
                                ReceiveStatus::FinishedWithErrors
                            }),
                        any_unfinished <==> (exists|m: int|
                            0 <= m < i as int && orig[m] != ReceiveStatus::Finished),
                    decreases n - i,
                {
                    if !(s.file_status[i] == ReceiveStatus::Finished) {
                        proof {
                            assert(orig[i as int] != ReceiveStatus::Finished);
                        }
                        s.file_status.set(i, ReceiveStatus::FinishedWithErrors);
                        any_unfinished = true;
                    } else {
                        proof {
                            assert(orig[i as int] == ReceiveStatus::Finished);
                        }
                    }
                    i += 1;
                }
                s.status = if any_unfinished {
                    ReceiveStatus::FinishedWithErrors
                } else {
                    ReceiveStatus::Finished
                };
                CancelOutcome::Cancelled(s)
            },
        }
    }
}

} // verus!
