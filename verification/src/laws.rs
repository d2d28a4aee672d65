//! What holds of every notification: how the level is determined, how a
//! notification of the utility layer is carried through, and when the message
//! of an operation on a component names a target.

use crate::notifications::component_message;
use crate::notifications::is_cross_target;
use crate::notifications::Notification;
use crate::text::names_a_target;
use crate::text::occurs_at;
use crate::text::occurs_in;
use crate::text::target_suffix;
use crate::triple::TargetTriple;
use crate::utils::UtilsNotification;
use vstd::prelude::*;
use vstd::std_specs::convert::FromSpec;

verus! {

/// The level is a function of the notification: equal notifications have the
/// same level and the same message.
pub proof fn lemma_level_is_determined(a: Notification, b: Notification)
    requires
        a == b,
    ensures
        a.severity() == b.severity(),
        a.message() == b.message(),
{
}

/// The level goes by the kind of the notification alone, whatever the
/// notification carries. The one exception is a notification of the utility
/// layer, which has the level it came with.
pub proof fn lemma_level_goes_by_kind(a: Notification, b: Notification)
    requires
        a.same_kind(&b),
        !(a is Utils),
    ensures
        a.severity() == b.severity(),
{
}

/// A notification of the utility layer keeps its own level and its own
/// message when this layer carries it, whether it is wrapped by hand or by
/// conversion.
pub proof fn lemma_utils_notification_is_carried_through(n: UtilsNotification)
    ensures
        Notification::Utils(n).severity() == n.severity(),
        Notification::Utils(n).message() == n.message(),
        Notification::from_spec(n) == Notification::Utils(n),
{
}

/// None of the four verbs holds a quote.
proof fn lemma_verbs_hold_no_quote()
    ensures
        !"downloading"@.contains('\''),
        !"installing"@.contains('\''),
        !"removing"@.contains('\''),
        !"removing previous version of"@.contains('\''),
{
    reveal_strlit("downloading");
    reveal_strlit("installing");
    reveal_strlit("removing");
    reveal_strlit("removing previous version of");
}

/// A message without the words for a target does not end by naming one,
/// unless the component's name itself holds the words `for '`.
proof fn lemma_plain_message_names_no_target(verb: Seq<char>, name: Seq<char>)
    requires
        !verb.contains('\''),
        !occurs_in("for '"@, name),
    ensures
        !names_a_target(verb + " component '"@ + name + "'"@),
{
    reveal_strlit("for '");
    reveal_strlit(" component '");
    reveal_strlit("'");
    let words = "for '"@;
    let middle = " component '"@;
    let message = verb + middle + name + "'"@;
    let start = verb.len() + middle.len();
    assert forall|target: Seq<char>| !(#[trigger] target_suffix(target).is_suffix_of(message)) by {
        let suffix = target_suffix(target);
        if suffix.is_suffix_of(message) {
            let k = message.len() - suffix.len();
            assert forall|j: int| 0 <= j < words.len() implies message[k + j] == words[j] by {
                assert(message.subrange(k, message.len() as int)[j] == suffix[j]);
            }
            assert(message[k] == 'f') by {
                assert(message[k + 0] == words[0]);
            }
            assert(message[k + 4] == '\'') by {
                assert(message[k + 4] == words[4]);
            }
            if k >= start {
                // The words would stand in the name.
                assert(name.subrange(k - start, k - start + words.len()) =~= words) by {
                    assert forall|j: int| 0 <= j < words.len() implies name[k - start + j]
                        == words[j] by {
                        assert(message[k + j] == name[k + j - start]);
                    }
                }
                assert(occurs_at(words, name, k - start));
            } else if k + 4 >= start {
                // The `f` would stand among the last four letters of ` component '`.
                assert(message[k] == middle[k - verb.len()]);
            } else if k + 4 < verb.len() {
                // The quote would stand in the verb.
                assert(verb[k + 4] == '\'');
            } else {
                // The quote is the one that opens the name, and five letters
                // before it stands an `e`.
                assert(message[k + 4] == middle[k + 4 - verb.len()]);
                assert(message[k] == middle[k - verb.len()]);
            }
        }
    }
}

/// Where the component's name holds the words `for '`, a message without
/// the words for a target still ends like one that names a target.
proof fn lemma_name_with_the_words_names_a_target(verb: Seq<char>, name: Seq<char>)
    requires
        occurs_in("for '"@, name),
    ensures
        names_a_target(verb + " component '"@ + name + "'"@),
{
    reveal_strlit("for '");
    reveal_strlit("'");
    let words = "for '"@;
    let message = verb + " component '"@ + name + "'"@;
    let i = choose|i: int| occurs_at(words, name, i);
    let target = name.subrange(i + words.len(), name.len() as int);
    let suffix = target_suffix(target);
    let k = message.len() - suffix.len();
    assert(suffix =~= message.subrange(k, message.len() as int)) by {
        assert forall|j: int| 0 <= j < suffix.len() implies suffix[j] == message[k + j] by {
            if j < words.len() {
                assert(name.subrange(i, i + words.len())[j] == words[j]);
            }
        }
    }
    assert(target_suffix(target).is_suffix_of(message));
}

/// The message of an operation on a component that is for the host itself,
/// for any of the four verbs.
proof fn lemma_message_for_host(verb: Seq<char>, name: Seq<char>)
    requires
        !verb.contains('\''),
    ensures
        names_a_target(verb + " component '"@ + name + "'"@) <==> occurs_in("for '"@, name),
{
    if occurs_in("for '"@, name) {
        lemma_name_with_the_words_names_a_target(verb, name);
    } else {
        lemma_plain_message_names_no_target(verb, name);
    }
}

/// Whether the target of an operation is left out or is the host itself
/// makes no difference: for each of the four operations on a component the
/// message is `<verb> component '<name>'` and nothing more. It ends by
/// naming a target only where the component's name itself holds the words
/// `for '`, as the name `a for 'b` does.
pub proof fn lemma_operation_for_host_names_no_target(
    name: &str,
    host: &TargetTriple,
    target: Option<&TargetTriple>,
)
    requires
        target is None || target->0@ == host@,
    ensures
        Notification::DownloadingComponent(name, host, target).message() == "downloading"@
            + " component '"@ + name@ + "'"@,
        Notification::InstallingComponent(name, host, target).message() == "installing"@
            + " component '"@ + name@ + "'"@,
        Notification::RemovingComponent(name, host, target).message() == "removing"@
            + " component '"@ + name@ + "'"@,
        Notification::RemovingOldComponent(name, host, target).message()
            == "removing previous version of"@ + " component '"@ + name@ + "'"@,
        names_a_target(Notification::DownloadingComponent(name, host, target).message())
            <==> occurs_in("for '"@, name@),
        names_a_target(Notification::InstallingComponent(name, host, target).message())
            <==> occurs_in("for '"@, name@),
        names_a_target(Notification::RemovingComponent(name, host, target).message())
            <==> occurs_in("for '"@, name@),
        names_a_target(Notification::RemovingOldComponent(name, host, target).message())
            <==> occurs_in("for '"@, name@),
{
    lemma_verbs_hold_no_quote();
    lemma_message_for_host("downloading"@, name@);
    lemma_message_for_host("installing"@, name@);
    lemma_message_for_host("removing"@, name@);
    lemma_message_for_host("removing previous version of"@, name@);
}

/// Where the target of an operation is another platform than the host, the
/// message of each of the four operations on a component is the message for
/// the host followed by ` for '<target>'`, so it ends by naming that target.
pub proof fn lemma_operation_for_other_target_names_it(
    name: &str,
    host: &TargetTriple,
    target: &TargetTriple,
)
    requires
        target@ != host@,
    ensures
        Notification::DownloadingComponent(name, host, Some(target)).message()
            == Notification::DownloadingComponent(name, host, None).message() + " for '"@
            + target@ + "'"@,
        Notification::InstallingComponent(name, host, Some(target)).message()
            == Notification::InstallingComponent(name, host, None).message() + " for '"@
            + target@ + "'"@,
        Notification::RemovingComponent(name, host, Some(target)).message()
            == Notification::RemovingComponent(name, host, None).message() + " for '"@
            + target@ + "'"@,
        Notification::RemovingOldComponent(name, host, Some(target)).message()
            == Notification::RemovingOldComponent(name, host, None).message() + " for '"@
            + target@ + "'"@,
        target_suffix(target@).is_suffix_of(
            Notification::DownloadingComponent(name, host, Some(target)).message(),
        ),
        target_suffix(target@).is_suffix_of(
            Notification::InstallingComponent(name, host, Some(target)).message(),
        ),
        target_suffix(target@).is_suffix_of(
            Notification::RemovingComponent(name, host, Some(target)).message(),
        ),
        target_suffix(target@).is_suffix_of(
            Notification::RemovingOldComponent(name, host, Some(target)).message(),
        ),
{
    lemma_cross_message_ends_with_target("downloading"@, name@, host@, target@);
    lemma_cross_message_ends_with_target("installing"@, name@, host@, target@);
    lemma_cross_message_ends_with_target("removing"@, name@, host@, target@);
    lemma_cross_message_ends_with_target("removing previous version of"@, name@, host@, target@);
}

/// The message of an operation for another platform ends by naming it.
proof fn lemma_cross_message_ends_with_target(
    verb: Seq<char>,
    name: Seq<char>,
    host: Seq<char>,
    target: Seq<char>,
)
    requires
        target != host,
    ensures
        target_suffix(target).is_suffix_of(component_message(verb, name, host, Some(target))),
{
    reveal_strlit("for '");
    reveal_strlit(" for '");
    reveal_strlit("'");
    let message = component_message(verb, name, host, Some(target));
    let suffix = target_suffix(target);
    assert(is_cross_target(host, Some(target)));
    assert(suffix =~= message.subrange(message.len() - suffix.len(), message.len() as int));
}

} // verus!
