//! File des notifications recentes destinees a l'affichage.

use vstd::prelude::*;

verus! {

/// Nombre maximal de notifications conservees.
pub const NOTIFICATIONS_MAX: usize = 5;

/// La liste des notifications a presenter a l'utilisateur.
pub struct ListeNotifications {
    /// Messages recents, du plus ancien au plus recent.
    pub notifications: Vec<String>,
}

/// Ajoute un message a la liste : il prend place en queue, et le plus ancien
/// message est retire des que la liste depasse `NOTIFICATIONS_MAX`.
pub fn ajouter_notification(liste: &mut ListeNotifications, message: &str)
    ensures
        final(liste).notifications@.len() == if old(liste).notifications@.len() + 1
            > NOTIFICATIONS_MAX {
            old(liste).notifications@.len() as int
        } else {
            old(liste).notifications@.len() as int + 1
        },
        final(liste).notifications@.last()@ == message@,
        old(liste).notifications@.len() + 1 <= NOTIFICATIONS_MAX ==> forall|k: int|
            0 <= k < old(liste).notifications@.len() ==> (#[trigger] final(liste).notifications@[k]) == old(liste).notifications@[k],
        old(liste).notifications@.len() + 1 > NOTIFICATIONS_MAX ==> forall|k: int|
            0 <= k < old(liste).notifications@.len() - 1 ==> (#[trigger] final(liste).notifications@[k]) == old(liste).notifications@[k + 1],
{
    liste.notifications.push(message.to_owned());
    if liste.notifications.len() > NOTIFICATIONS_MAX {
        liste.notifications.remove(0);
    }
}

} // verus!
