//! Laws of the devices: the order in which messages are carried out.

use vstd::prelude::*;

use super::io_device::{
    spec_device_after, spec_drain_error, spec_drained_device, spec_drained_memory,
    spec_memory_after, spec_perform_error, IoDeviceView, IoMessage,
};
use crate::mix::word::Word;

verus! {

/// A device carries out its messages in the order in which they were sent:
/// to work through a mailbox is to carry out its oldest message and then to
/// work through the rest.
pub proof fn lemma_oldest_first(
    d: IoDeviceView,
    memory: Seq<Word>,
    extension: Word,
    message: IoMessage,
    later: Seq<IoMessage>,
)
    requires
        d.mailbox == seq![message] + later,
        spec_perform_error(
            IoDeviceView { mailbox: later, ..d },
            memory,
            extension,
            message,
        ) is None,
    ensures
        spec_drained_device(d, memory, extension) == spec_drained_device(
            spec_device_after(IoDeviceView { mailbox: later, ..d }, memory, extension, message),
            spec_memory_after(IoDeviceView { mailbox: later, ..d }, memory, extension, message),
            extension,
        ),
        spec_drained_memory(d, memory, extension) == spec_drained_memory(
            spec_device_after(IoDeviceView { mailbox: later, ..d }, memory, extension, message),
            spec_memory_after(IoDeviceView { mailbox: later, ..d }, memory, extension, message),
            extension,
        ),
{
    assert(d.mailbox.drop_first() =~= later);
    assert(d.mailbox[0] == message);
}

/// What becomes of the medium and of memory does not depend on the
/// messages that wait behind the one that is carried out.
pub proof fn lemma_waiting_messages_do_not_matter(
    d: IoDeviceView,
    memory: Seq<Word>,
    extension: Word,
    message: IoMessage,
    waiting: Seq<IoMessage>,
)
    ensures
        spec_perform_error(IoDeviceView { mailbox: waiting, ..d }, memory, extension, message)
            == spec_perform_error(d, memory, extension, message),
        spec_memory_after(IoDeviceView { mailbox: waiting, ..d }, memory, extension, message)
            == spec_memory_after(d, memory, extension, message),
        spec_device_after(IoDeviceView { mailbox: waiting, ..d }, memory, extension, message)
            == (IoDeviceView {
            mailbox: waiting,
            ..spec_device_after(d, memory, extension, message)
        }),
{
}

/// Sending two messages and letting the device work gives what sending the
/// first, letting the device work, then sending the second and letting it
/// work again gives: the state of the medium follows the order of sending.
pub proof fn lemma_sending_order(
    d: IoDeviceView,
    memory: Seq<Word>,
    extension: Word,
    first: IoMessage,
    second: IoMessage,
)
    requires
        d.mailbox.len() == 0,
        spec_perform_error(d, memory, extension, first) is None,
    ensures
        ({
            let both = IoDeviceView { mailbox: seq![first, second], ..d };
            let one = IoDeviceView { mailbox: seq![first], ..d };
            let between = spec_drained_device(one, memory, extension);
            let memory_between = spec_drained_memory(one, memory, extension);
            let then = IoDeviceView { mailbox: seq![second], ..between };
            &&& spec_drained_device(both, memory, extension) == spec_drained_device(
                then,
                memory_between,
                extension,
            )
            &&& spec_drained_memory(both, memory, extension) == spec_drained_memory(
                then,
                memory_between,
                extension,
            )
            &&& spec_drain_error(both, memory, extension) == spec_drain_error(
                then,
                memory_between,
                extension,
            )
        }),
{
    let both = IoDeviceView { mailbox: seq![first, second], ..d };
    let one = IoDeviceView { mailbox: seq![first], ..d };
    let empty = IoDeviceView { mailbox: Seq::<IoMessage>::empty(), ..d };
    assert(both.mailbox.drop_first() =~= seq![second]);
    assert(one.mailbox.drop_first() =~= Seq::<IoMessage>::empty());
    assert(d.mailbox =~= Seq::<IoMessage>::empty());
    assert(empty == d);
    let rest_both = IoDeviceView { mailbox: seq![second], ..d };
    lemma_waiting_messages_do_not_matter(d, memory, extension, first, seq![second]);
    let after_one = spec_device_after(d, memory, extension, first);
    let memory_one = spec_memory_after(d, memory, extension, first);
    // one message, then nothing left: the device is as after that message
    assert(spec_drained_device(after_one, memory_one, extension) == (IoDeviceView {
        busy: false,
        ..after_one
    }));
    assert(after_one.busy == false);
    assert(spec_drained_memory(after_one, memory_one, extension) == memory_one);
    assert(spec_drain_error(after_one, memory_one, extension) is None);
    assert(spec_drained_device(one, memory, extension) == after_one);
    assert(spec_drained_memory(one, memory, extension) == memory_one);
    let then = IoDeviceView { mailbox: seq![second], ..after_one };
    assert(spec_device_after(rest_both, memory, extension, first) == then);
}

/// The device after it carried out the first `upto` of `messages`, one
/// after the other in their order, each on what the one before it left.
pub open spec fn spec_device_after_messages(
    d: IoDeviceView,
    memory: Seq<Word>,
    extension: Word,
    messages: Seq<IoMessage>,
    upto: int,
) -> IoDeviceView
    decreases upto,
{
    if upto <= 0 {
        d
    } else {
        spec_device_after(
            spec_device_after_messages(d, memory, extension, messages, upto - 1),
            spec_memory_after_messages(d, memory, extension, messages, upto - 1),
            extension,
            messages[upto - 1],
        )
    }
}

/// Memory after the device carried out the first `upto` of `messages`.
pub open spec fn spec_memory_after_messages(
    d: IoDeviceView,
    memory: Seq<Word>,
    extension: Word,
    messages: Seq<IoMessage>,
    upto: int,
) -> Seq<Word>
    decreases upto,
{
    if upto <= 0 {
        memory
    } else {
        spec_memory_after(
            spec_device_after_messages(d, memory, extension, messages, upto - 1),
            spec_memory_after_messages(d, memory, extension, messages, upto - 1),
            extension,
            messages[upto - 1],
        )
    }
}

/// Whether the device can carry out each of the first `upto` of `messages`
/// in its turn.
pub open spec fn spec_messages_possible(
    d: IoDeviceView,
    memory: Seq<Word>,
    extension: Word,
    messages: Seq<IoMessage>,
    upto: int,
) -> bool
    decreases upto,
{
    if upto <= 0 {
        true
    } else {
        spec_messages_possible(d, memory, extension, messages, upto - 1) && spec_perform_error(
            spec_device_after_messages(d, memory, extension, messages, upto - 1),
            spec_memory_after_messages(d, memory, extension, messages, upto - 1),
            extension,
            messages[upto - 1],
        ) is None
    }
}

/// To work through a mailbox from its message number `from` on, on what the
/// messages before that one have left, is to work through all of it.
proof fn lemma_drain_from(d: IoDeviceView, memory: Seq<Word>, extension: Word, from: int)
    requires
        0 <= from <= d.mailbox.len(),
        spec_messages_possible(d, memory, extension, d.mailbox, from),
    ensures
        spec_drained_device(d, memory, extension) == spec_drained_device(
            IoDeviceView {
                mailbox: d.mailbox.skip(from),
                ..spec_device_after_messages(d, memory, extension, d.mailbox, from)
            },
            spec_memory_after_messages(d, memory, extension, d.mailbox, from),
            extension,
        ),
        spec_drained_memory(d, memory, extension) == spec_drained_memory(
            IoDeviceView {
                mailbox: d.mailbox.skip(from),
                ..spec_device_after_messages(d, memory, extension, d.mailbox, from)
            },
            spec_memory_after_messages(d, memory, extension, d.mailbox, from),
            extension,
        ),
        spec_drain_error(d, memory, extension) == spec_drain_error(
            IoDeviceView {
                mailbox: d.mailbox.skip(from),
                ..spec_device_after_messages(d, memory, extension, d.mailbox, from)
            },
            spec_memory_after_messages(d, memory, extension, d.mailbox, from),
            extension,
        ),
    decreases from,
{
    let m = d.mailbox;
    if from == 0 {
        assert(m.skip(0) =~= m);
        assert((IoDeviceView { mailbox: m.skip(0), ..d }) == d);
    } else {
        lemma_drain_from(d, memory, extension, from - 1);
        let before = spec_device_after_messages(d, memory, extension, m, from - 1);
        let memory_before = spec_memory_after_messages(d, memory, extension, m, from - 1);
        let waiting = IoDeviceView { mailbox: m.skip(from - 1), ..before };
        let message = m[from - 1];
        assert(waiting.mailbox[0] == message);
        assert(waiting.mailbox.drop_first() =~= m.skip(from));
        let rest = IoDeviceView { mailbox: m.skip(from), ..before };
        assert(rest == (IoDeviceView { mailbox: waiting.mailbox.drop_first(), ..waiting }));
        lemma_waiting_messages_do_not_matter(before, memory_before, extension, message, m.skip(from));
    }
}

/// A device carries out the messages of its mailbox in the order in which
/// they were sent, however many they are: where each can be carried out in
/// its turn, to work through the mailbox is to carry out the first on the
/// device as it is, the second on what the first has left, and so on to the
/// last. None is left out, none is carried out twice, and afterwards the
/// mailbox is empty and the device is ready.
pub proof fn lemma_messages_in_order(d: IoDeviceView, memory: Seq<Word>, extension: Word)
    requires
        spec_messages_possible(d, memory, extension, d.mailbox, d.mailbox.len() as int),
    ensures
        spec_drain_error(d, memory, extension) is None,
        spec_drained_device(d, memory, extension) == (IoDeviceView {
            mailbox: Seq::empty(),
            busy: false,
            ..spec_device_after_messages(d, memory, extension, d.mailbox, d.mailbox.len() as int)
        }),
        spec_drained_memory(d, memory, extension) == spec_memory_after_messages(
            d,
            memory,
            extension,
            d.mailbox,
            d.mailbox.len() as int,
        ),
{
    let n = d.mailbox.len() as int;
    lemma_drain_from(d, memory, extension, n);
    assert(d.mailbox.skip(n) =~= Seq::<IoMessage>::empty());
}

/// Where a message cannot be carried out in its turn, the device stops
/// there: the messages before it were carried out in their order, that one
/// is dropped with its reason reported, and those behind it wait on.
pub proof fn lemma_messages_stop(d: IoDeviceView, memory: Seq<Word>, extension: Word, at: int)
    requires
        0 <= at < d.mailbox.len(),
        spec_messages_possible(d, memory, extension, d.mailbox, at),
        !spec_messages_possible(d, memory, extension, d.mailbox, at + 1),
    ensures
        spec_drain_error(d, memory, extension) == spec_perform_error(
            spec_device_after_messages(d, memory, extension, d.mailbox, at),
            spec_memory_after_messages(d, memory, extension, d.mailbox, at),
            extension,
            d.mailbox[at],
        ),
        spec_drained_device(d, memory, extension) == (IoDeviceView {
            mailbox: d.mailbox.skip(at + 1),
            ..spec_device_after_messages(d, memory, extension, d.mailbox, at)
        }),
        spec_drained_memory(d, memory, extension) == spec_memory_after_messages(
            d,
            memory,
            extension,
            d.mailbox,
            at,
        ),
{
    let m = d.mailbox;
    lemma_drain_from(d, memory, extension, at);
    let before = spec_device_after_messages(d, memory, extension, m, at);
    let memory_before = spec_memory_after_messages(d, memory, extension, m, at);
    let waiting = IoDeviceView { mailbox: m.skip(at), ..before };
    assert(waiting.mailbox[0] == m[at]);
    assert(waiting.mailbox.drop_first() =~= m.skip(at + 1));
    lemma_waiting_messages_do_not_matter(before, memory_before, extension, m[at], m.skip(at + 1));
}

} // verus!
