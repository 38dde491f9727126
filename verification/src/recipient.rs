//! Recipients and their contacts.

use vstd::prelude::*;
use std::collections::HashMap;
use crate::error::{EngineError, ErrorView};

verus! {

/// An address on one channel.
#[derive(Debug)]
pub struct Contact {
    pub channel: String,
    pub address: String,
}

/// A [`Contact`] by content.
pub struct ContactView {
    pub channel: Seq<char>,
    pub address: Seq<char>,
}

impl View for Contact {
    type V = ContactView;

    open spec fn view(&self) -> ContactView {
        ContactView { channel: self.channel@, address: self.address@ }
    }
}

impl Clone for Contact {
    fn clone(&self) -> (copy: Contact)
        ensures
            copy@ == self@,
    {
        Contact { channel: self.channel.clone(), address: self.address.clone() }
    }
}

/// A list of contacts, by content.
pub open spec fn contacts_view(contacts: Seq<Contact>) -> Seq<ContactView> {
    contacts.map_values(|c: Contact| c@)
}

/// An optional contact, by content.
pub open spec fn contact_view(contact: Option<Contact>) -> Option<ContactView> {
    match contact {
        Some(c) => Some(c@),
        None => None,
    }
}

/// The first contact at or after position `from` whose channel is `channel`.
pub open spec fn primary_from(contacts: Seq<ContactView>, channel: Seq<char>, from: int) -> Option<
    ContactView,
>
    decreases contacts.len() - from,
{
    if from < 0 || from >= contacts.len() {
        None
    } else if contacts[from].channel == channel {
        Some(contacts[from])
    } else {
        primary_from(contacts, channel, from + 1)
    }
}

/// The primary contact on `channel`: the first one in the list with that
/// channel.
pub open spec fn primary_contact(contacts: Seq<ContactView>, channel: Seq<char>) -> Option<
    ContactView,
> {
    primary_from(contacts, channel, 0)
}

/// The primary contact is on the channel asked for and no contact before it
/// is; there is none exactly when no contact is on that channel.
pub proof fn lemma_primary_contact_is_first(
    contacts: Seq<ContactView>,
    channel: Seq<char>,
    from: int,
)
    requires
        0 <= from,
    ensures
        match primary_from(contacts, channel, from) {
            Some(c) => exists|i: int|
                from <= i < contacts.len() && contacts[i] == c && c.channel == channel && forall|
                    j: int,
                |
                    from <= j < i ==> (#[trigger] contacts[j]).channel != channel,
            None => forall|j: int|
                from <= j < contacts.len() ==> (#[trigger] contacts[j]).channel != channel,
        },
    decreases contacts.len() - from,
{
    if from >= contacts.len() {
    } else if contacts[from].channel == channel {
        assert(from <= from < contacts.len() && contacts[from] == contacts[from]);
    } else {
        lemma_primary_contact_is_first(contacts, channel, from + 1);
        match primary_from(contacts, channel, from + 1) {
            Some(c) => {
                let i = choose|i: int|
                    from + 1 <= i < contacts.len() && contacts[i] == c && c.channel == channel
                        && forall|j: int|
                        from + 1 <= j < i ==> (#[trigger] contacts[j]).channel != channel;
                assert(from <= i < contacts.len() && contacts[i] == c && c.channel == channel
                    && forall|j: int|
                    from <= j < i ==> (#[trigger] contacts[j]).channel != channel);
            },
            None => {},
        }
    }
}

/// Who is to be notified: a stable identifier and the contacts under which
/// the recipient can be reached.
#[derive(Debug)]
pub struct Recipient {
    pub id: u128,
    pub contacts: Vec<Contact>,
}

/// A [`Recipient`] by content.
pub struct RecipientView {
    pub id: u128,
    pub contacts: Seq<ContactView>,
}

impl View for Recipient {
    type V = RecipientView;

    open spec fn view(&self) -> RecipientView {
        RecipientView { id: self.id, contacts: contacts_view(self.contacts@) }
    }
}

/// An optional recipient, by content.
pub open spec fn recipient_view(recipient: Option<Recipient>) -> Option<RecipientView> {
    match recipient {
        Some(r) => Some(r@),
        None => None,
    }
}

impl Clone for Recipient {
    fn clone(&self) -> (copy: Recipient)
        ensures
            copy@ == self@,
    {
        let mut contacts: Vec<Contact> = Vec::new();
        let mut i: usize = 0;
        while i < self.contacts.len()
            invariant
                i <= self.contacts.len(),
                contacts.len() == i,
                forall|j: int| 0 <= j < i ==> contacts[j]@ == self.contacts[j]@,
            decreases self.contacts.len() - i,
        {
            contacts.push(self.contacts[i].clone());
            i += 1;
        }
        assert(contacts_view(contacts@) =~= contacts_view(self.contacts@));
        Recipient { id: self.id, contacts }
    }
}

impl Recipient {
    /// The recipient's primary contact on `channel`: the first of its
    /// contacts with that channel. Without one the answer is
    /// `ContactNotSet`.
    pub fn get_primary_contact(&self, channel: &str) -> (found: Result<Contact, EngineError>)
        ensures
            match found {
                Ok(c) => primary_contact(self@.contacts, channel@) == Some(c@),
                Err(e) => primary_contact(self@.contacts, channel@) is None && e@
                    == ErrorView::ContactNotSet,
            },
    {
        let ghost all = self@.contacts;
        let mut i: usize = 0;
        while i < self.contacts.len()
            invariant
                i <= self.contacts.len(),
                all == contacts_view(self.contacts@),
                primary_contact(all, channel@) == primary_from(all, channel@, i as int),
            decreases self.contacts.len() - i,
        {
            assert(all[i as int] == self.contacts[i as int]@);
            if self.contacts[i].channel.as_str().eq(channel) {
                return Ok(self.contacts[i].clone());
            }
            i += 1;
        }
        Err(EngineError::ContactNotSet)
    }
}

/// Where recipients are looked up by identifier.
pub trait RecipientDirectory {
    fn get_recipient(&self, id: u128) -> Option<Recipient>;
}

/// What a directory built from `recipients` holds: each recipient under its
/// identifier, a later one replacing an earlier one with the same identifier.
pub open spec fn directory_of(recipients: Seq<RecipientView>) -> Map<u128, RecipientView>
    decreases recipients.len(),
{
    if recipients.len() == 0 {
        Map::empty()
    } else {
        directory_of(recipients.drop_last()).insert(recipients.last().id, recipients.last())
    }
}

/// A list of recipients, by content.
pub open spec fn recipients_view(recipients: Seq<Recipient>) -> Seq<RecipientView> {
    recipients.map_values(|r: Recipient| r@)
}

/// A directory held in memory.
pub struct MemoryRecipientDirectory {
    directory: HashMap<u128, Recipient>,
}

impl View for MemoryRecipientDirectory {
    type V = Map<u128, RecipientView>;

    closed spec fn view(&self) -> Map<u128, RecipientView> {
        self.directory@.map_values(|r: Recipient| r@)
    }
}

impl MemoryRecipientDirectory {
    /// The directory of the given recipients.
    pub fn new(recipients: Vec<Recipient>) -> (made: MemoryRecipientDirectory)
        ensures
            made@ == directory_of(recipients_view(recipients@)),
    {
        broadcast use vstd::std_specs::hash::group_hash_axioms;

        let ghost all = recipients_view(recipients@);
        let mut directory: HashMap<u128, Recipient> = HashMap::new();
        let mut i: usize = 0;
        assert(all.take(0) =~= Seq::<RecipientView>::empty());
        assert(directory@.map_values(|r: Recipient| r@) =~= directory_of(all.take(0)));
        while i < recipients.len()
            invariant
                i <= recipients.len(),
                all == recipients_view(recipients@),
                directory@.map_values(|r: Recipient| r@) == directory_of(all.take(i as int)),
            decreases recipients.len() - i,
        {
            let ghost before = directory@;
            let recipient = recipients[i].clone();
            directory.insert(recipients[i].id, recipient);
            proof {
                let next = all.take(i + 1);
                assert(next.drop_last() =~= all.take(i as int));
                assert(next.last() == recipients[i as int]@);
                assert(directory@.map_values(|r: Recipient| r@) =~= before.map_values(
                    |r: Recipient| r@,
                ).insert(recipients[i as int].id, recipient@));
            }
            i += 1;
        }
        assert(all.take(i as int) =~= all);
        MemoryRecipientDirectory { directory }
    }
}

impl RecipientDirectory for MemoryRecipientDirectory {
    fn get_recipient(&self, id: u128) -> (found: Option<Recipient>)
        ensures
            match found {
                Some(r) => self@.contains_key(id) && self@[id] == r@,
                None => !self@.contains_key(id),
            },
    {
        broadcast use vstd::std_specs::hash::group_hash_axioms;

        match self.directory.get(&id) {
            Some(r) => Some(r.clone()),
            None => None,
        }
    }
}

} // verus!
