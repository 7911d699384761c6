//! Notification grouping by app and category.
//!
//! Generates a group key used to visually group related notifications in the
//! shell panel.

use crate::dbus::server::{Notification, NotificationView};
use crate::text::{before_first, find_char, first_index, join, lemma_first_index};
use vstd::prelude::*;
use vstd::string::*;

verus! {

/// The group key of a notification: the app name, and behind a colon the part
/// of the category before its first dot, where there is a category.
pub open spec fn group_key(n: NotificationView) -> Seq<char> {
    if n.category.len() == 0 {
        n.app_name
    } else {
        n.app_name + ":"@ + before_first(n.category, '.')
    }
}

/// Derive a group key for a notification.
///
/// Grouping hierarchy:
/// 1. Category prefix (e.g. "im" from "im.received") if present
/// 2. App name as fallback
///
/// The shell uses this key to collapse notifications from the same source into
/// a single group header.
pub fn derive_group_key(notification: &Notification) -> (r: String)
    ensures
        r@ == group_key(notification@),
{
    if notification.category.as_str().is_empty() {
        return notification.app_name.clone();
    }
    // The major category, before the first dot.
    let category: &str = notification.category.as_str();
    let major: &str = category.substring_char(0, find_char(category, '.'));
    let head: String = join(notification.app_name.as_str(), ":");
    assert(major@ =~= before_first(category@, '.'));
    join(head.as_str(), major)
}

/// Notifications of one app with the same major category share a group,
/// whatever follows the first dot.
pub proof fn subcategories_share_a_group(
    a: NotificationView,
    b: NotificationView,
    major: Seq<char>,
    a_minor: Seq<char>,
    b_minor: Seq<char>,
)
    requires
        a.app_name == b.app_name,
        !major.contains('.'),
        a.category == major + seq!['.'] + a_minor,
        b.category == major + seq!['.'] + b_minor,
    ensures
        group_key(a) == group_key(b),
        group_key(a) == a.app_name + ":"@ + major,
{
    let k = major.len() as int;
    assert forall|i: int| 0 <= i < k implies a.category[i] != '.' && b.category[i] != '.' by {
        assert(major[i] == a.category[i]);
        assert(major[i] == b.category[i]);
        assert(major.contains(major[i]));
    }
    lemma_first_index(a.category, '.', k);
    lemma_first_index(b.category, '.', k);
    assert(before_first(a.category, '.') =~= major);
    assert(before_first(b.category, '.') =~= major);
}

/// A category without a dot is taken whole.
pub proof fn category_without_dot_is_taken_whole(n: NotificationView)
    requires
        n.category.len() > 0,
        !n.category.contains('.'),
    ensures
        group_key(n) == n.app_name + ":"@ + n.category,
{
    let k = n.category.len() as int;
    assert forall|i: int| 0 <= i < k implies n.category[i] != '.' by {
        assert(n.category.contains(n.category[i]));
    }
    lemma_first_index(n.category, '.', k);
    assert(first_index(n.category, '.') == k);
    assert(before_first(n.category, '.') =~= n.category);
}

/// A notification without a category is grouped by its app alone.
pub proof fn without_category_the_app_is_the_group(n: NotificationView)
    requires
        n.category.len() == 0,
    ensures
        group_key(n) == n.app_name,
{
}

} // verus!
