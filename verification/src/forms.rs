//! The host dialog: opening it to add, edit or delete a host, and what
//! saving it does to the saved hosts.
use vstd::prelude::*;
use crate::host_form::{self, AuthKind, HostFormDraft};
use crate::ids::{random_uuid_value, HostId};
use crate::model::HostConfig;
use crate::state::{self, AppState, HostFormState};

verus! {

/// What saving the dialog did.
#[derive(Debug, Clone, Copy, PartialEq, Eq, Structural)]
pub enum FormSave {
    /// No dialog was open.
    NoForm,
    /// A host was added or updated; the hosts must be written to disk.
    Saved,
    /// The host was deleted; the hosts must be written to disk and its
    /// keyring entries dropped.
    Deleted(HostId),
    /// The draft was refused; the dialog shows why.
    Invalid,
}

/// `d` is `draft` with the error message `msg`.
pub open spec fn with_error(d: HostFormDraft, draft: HostFormDraft, msg: Seq<char>) -> bool {
    &&& d == (HostFormDraft { error: d.error, ..draft })
    &&& d.error matches Some(e) && e@ == msg
}

/// What saving the dialog with `draft` does to the state `s0`, giving `s1`,
/// given the id a new host gets (`fresh`) and whether the key file exists.
pub open spec fn save_form_spec(
    s0: AppState,
    s1: AppState,
    draft: HostFormDraft,
    fresh: HostId,
    key_exists: bool,
    r: FormSave,
) -> bool {
    match s0.modal {
        None => r == FormSave::NoForm && s1 == s0,
        Some(HostFormState::DeleteConfirm { id, .. }) => {
            &&& r == FormSave::Deleted(id)
            &&& s1 == (AppState { hosts: s1.hosts, modal: None, ..s0 })
            &&& s1.hosts@ == match state::host_pos(s0.hosts@, id) {
                Some(i) => s0.hosts@.remove(i),
                None => s0.hosts@,
            }
        },
        Some(HostFormState::Adding(_)) => match host_form::draft_error_spec(draft, false, key_exists) {
            Some(msg) => {
                &&& r == FormSave::Invalid
                &&& s1 == (AppState { modal: s1.modal, ..s0 })
                &&& s1.modal matches Some(HostFormState::Adding(d)) && with_error(d, draft, msg)
            },
            None => {
                &&& r == FormSave::Saved
                &&& s1 == (AppState { hosts: s1.hosts, modal: None, ..s0 })
                &&& s1.hosts@.len() == s0.hosts@.len() + 1
                &&& s1.hosts@.drop_last() == s0.hosts@
                &&& host_form::draft_config_spec(draft, fresh, s1.hosts@.last())
            },
        },
        Some(HostFormState::Editing { id, .. }) => match host_form::draft_error_spec(draft, true, key_exists) {
            Some(msg) => {
                &&& r == FormSave::Invalid
                &&& s1 == (AppState { modal: s1.modal, ..s0 })
                &&& s1.modal matches Some(HostFormState::Editing { id: eid, draft: d }) && eid == id
                    && with_error(d, draft, msg)
            },
            None => {
                &&& r == FormSave::Saved
                &&& s1 == (AppState { hosts: s1.hosts, modal: None, ..s0 })
                &&& match state::host_pos(s0.hosts@, id) {
                    Some(i) => s1.hosts@.len() == s0.hosts@.len() && s1.hosts@ == s0.hosts@.update(
                        i,
                        s1.hosts@[i],
                    ) && host_form::draft_config_spec(draft, id, s1.hosts@[i]),
                    None => s1.hosts@ == s0.hosts@,
                }
            },
        },
    }
}

/// Which dialog is open.
#[derive(Debug, Clone, Copy, PartialEq, Eq, Structural)]
enum OpenForm {
    Closed,
    Add,
    Edit(HostId),
    Delete(HostId),
}

impl AppState {
    /// Which dialog is open.
    fn open_form(&self) -> (f: OpenForm)
        ensures
            match self.modal {
                None => f == OpenForm::Closed,
                Some(HostFormState::Adding(_)) => f == OpenForm::Add,
                Some(HostFormState::Editing { id, .. }) => f == OpenForm::Edit(id),
                Some(HostFormState::DeleteConfirm { id, .. }) => f == OpenForm::Delete(id),
            },
    {
        match &self.modal {
            None => OpenForm::Closed,
            Some(HostFormState::Adding(_)) => OpenForm::Add,
            Some(HostFormState::Editing { id, .. }) => OpenForm::Edit(*id),
            Some(HostFormState::DeleteConfirm { id, .. }) => OpenForm::Delete(*id),
        }
    }

    /// Saves the dialog with the draft the user filled in, given the id a
    /// new host gets and whether its key file exists: deletes the host being
    /// confirmed, or checks the draft and adds or updates the host, closing
    /// the dialog; a refused draft goes back into the dialog with the reason.
    pub fn save_host_form_with(&mut self, draft: HostFormDraft, fresh: HostId, key_exists: bool) -> (r:
        FormSave)
        ensures
            save_form_spec(*old(self), *final(self), draft, fresh, key_exists, r),
    {
        match self.open_form() {
            OpenForm::Closed => FormSave::NoForm,
            OpenForm::Delete(id) => {
                self.remove_host(id);
                self.modal = None;
                FormSave::Deleted(id)
            },
            OpenForm::Add => match draft.into_config_checked(None, fresh, key_exists) {
                Ok(cfg) => {
                    let ghost h0 = self.hosts@;
                    self.add_host(cfg);
                    assert(self.hosts@.drop_last() == h0);
                    self.modal = None;
                    FormSave::Saved
                },
                Err(e) => {
                    self.modal = Some(HostFormState::Adding(HostFormDraft { error: Some(e), ..draft }));
                    FormSave::Invalid
                },
            },
            OpenForm::Edit(id) => match draft.into_config_checked(Some(id), fresh, key_exists) {
                Ok(cfg) => {
                    let ghost c = cfg;
                    let ghost h0 = self.hosts@;
                    self.update_host(id, cfg);
                    proof {
                        match state::host_pos(h0, id) {
                            Some(i) => {
                                crate::seqs::lemma_first_match_props(h0, |h: HostConfig| h.id == id);
                                assert(self.hosts@[i] == c);
                                assert(host_form::draft_config_spec(draft, id, c));
                            },
                            None => {},
                        }
                    }
                    self.modal = None;
                    FormSave::Saved
                },
                Err(e) => {
                    self.modal = Some(
                        HostFormState::Editing { id, draft: HostFormDraft { error: Some(e), ..draft } },
                    );
                    FormSave::Invalid
                },
            },
        }
    }

    /// Saves the dialog: a new host gets a random id, and the disk tells
    /// whether the key file exists.
    pub fn save_host_form(&mut self, draft: HostFormDraft) -> (r: FormSave)
        ensures
            exists|fresh: HostId, key_exists: bool|
                save_form_spec(*old(self), *final(self), draft, fresh, key_exists, r),
    {
        let fresh = HostId(random_uuid_value());
        let key_exists = match draft.auth_kind {
            AuthKind::KeyFile => draft.key_file_exists(),
            AuthKind::Password => false,
        };
        self.save_host_form_with(draft, fresh, key_exists)
    }

    /// Opens the dialog to add a host, with an empty draft.
    pub fn open_add_form(&mut self)
        ensures
            final(self).modal matches Some(HostFormState::Adding(d)) && d.label@.len() == 0
                && d.host@.len() == 0 && d.port@.len() == 0 && d.user@.len() == 0 && d.auth_kind
                == AuthKind::KeyFile && d.key_path@.len() == 0 && d.password@.len() == 0
                && d.error is None,
            (*final(self)) == (AppState { modal: final(self).modal, ..*old(self) }),
    {
        self.modal = Some(HostFormState::Adding(HostFormDraft::default()));
    }

    /// Opens the dialog to edit the saved host `id`, filled from it; false,
    /// changing nothing, when there is no such host.
    pub fn open_edit_form(&mut self, id: HostId) -> (opened: bool)
        ensures
            opened == state::host_pos(old(self).hosts@, id) is Some,
            !opened ==> *final(self) == *old(self),
            opened ==> (*final(self)) == (AppState { modal: final(self).modal, ..*old(self) }),
            opened ==> (final(self).modal matches Some(HostFormState::Editing { id: eid, draft: d })
                && eid == id && host_form::draft_of(
                old(self).hosts@[state::host_pos(old(self).hosts@, id)->0],
                d,
            )),
    {
        match self.find_host(id) {
            Some(i) => {
                let draft = HostFormDraft::from_config(&self.hosts[i]);
                self.modal = Some(HostFormState::Editing { id, draft });
                true
            },
            None => false,
        }
    }

    /// The delete button of the edit dialog: the dialog turns into the
    /// confirmation of deleting the host being edited, named by the label in
    /// the draft. Returns false, changing nothing, when no host is being
    /// edited.
    pub fn ask_delete_from_edit(&mut self) -> (switched: bool)
        ensures
            switched == old(self).modal matches Some(HostFormState::Editing { .. }),
            !switched ==> *final(self) == *old(self),
            switched ==> (*final(self)) == (AppState { modal: final(self).modal, ..*old(self) }),
            switched ==> (old(self).modal matches Some(HostFormState::Editing { id, draft })
                && final(self).modal matches Some(HostFormState::DeleteConfirm { id: did, label })
                && did == id && label@ == draft.label@),
    {
        let next = match &self.modal {
            Some(HostFormState::Editing { id, draft }) => Some(
                HostFormState::DeleteConfirm { id: *id, label: draft.label.clone() },
            ),
            _ => None,
        };
        match next {
            Some(m) => {
                self.modal = Some(m);
                true
            },
            None => false,
        }
    }

    /// Closes the dialog without saving.
    pub fn cancel_host_form(&mut self)
        ensures
            (*final(self)) == (AppState { modal: None, ..*old(self) }),
    {
        self.modal = None;
    }

    /// Opens the dialog that confirms deleting the saved host `id`, naming
    /// it by its label; false, changing nothing, when there is no such host.
    pub fn open_delete_confirm(&mut self, id: HostId) -> (opened: bool)
        ensures
            opened == state::host_pos(old(self).hosts@, id) is Some,
            !opened ==> *final(self) == *old(self),
            opened ==> (*final(self)) == (AppState { modal: final(self).modal, ..*old(self) }),
            opened ==> (final(self).modal matches Some(HostFormState::DeleteConfirm { id: did, label })
                && did == id && label@ == old(self).hosts@[state::host_pos(
                old(self).hosts@,
                id,
            )->0].label@),
    {
        match self.find_host(id) {
            Some(i) => {
                let label = self.hosts[i].label.clone();
                self.modal = Some(HostFormState::DeleteConfirm { id, label });
                true
            },
            None => false,
        }
    }
}

} // verus!
