use vstd::prelude::*;
use crate::canonical::canonical_text;
use crate::device::{consume_spec, decided, decision_spec, set_topic, Decision, DeviceModel};
use crate::message::{convert_spec, ConvertError, Kind, MessageModel};

verus! {

/// Deciding twice in a row on the same message, starting unlocked: the
/// second decision finds no change and leaves the device as it was.
pub proof fn lemma_decide_idempotent(d: DeviceModel, m: MessageModel)
    requires
        d.count == 0,
    ensures
        decision_spec(decided(d, m), canonical_text(m)) == Decision::NoChange,
        decided(decided(d, m), m) == decided(d, m),
{
}

/// A peer that publishes a command holds exactly one more lock than before,
/// and the next message it sees, its echo whatever its content, is absorbed
/// and brings the count back to where it was before the fan-out.
pub proof fn lemma_lock_balance(d: DeviceModel, origin: MessageModel, echo: MessageModel)
    requires
        consume_spec(d, origin).1 matches Ok(Some(_)),
    ensures
        consume_spec(d, origin).0.count == d.count + 1,
        decision_spec(consume_spec(d, origin).0, canonical_text(echo)) == Decision::LockedEcho,
        decided(consume_spec(d, origin).0, echo).count == d.count,
        consume_spec(d, origin).1 matches Ok(Some(o)) ==> o.topic == set_topic(d.topic)
            && o.payload == consume_spec(d, origin).0.last,
        consume_spec(d, origin).0.context matches Some(local) ==> consume_spec(d, origin).0.last
            == canonical_text(local),
{
}

/// The conversion matrix field by field: listed fields come from the
/// source, the others from the context, and a conversion that needs a
/// context of the target kind fails without one.
pub proof fn lemma_conversion_fields(source: MessageModel, target: Kind, context: Option<
    MessageModel,
>)
    ensures
        source.kind() == target ==> convert_spec(source, target, context) == Ok::<
            MessageModel,
            ConvertError,
        >(source),
        source.kind() != target ==> match (source, target, context) {
            (MessageModel::Lamp { state, .. }, Kind::Switch, _) => convert_spec(
                source,
                target,
                context,
            ) == Ok::<MessageModel, ConvertError>(MessageModel::Switch { state }),
            (MessageModel::Lamp { brightness, state, .. }, Kind::Dimmer, _) => convert_spec(
                source,
                target,
                context,
            ) == Ok::<MessageModel, ConvertError>(MessageModel::Dimmer { brightness, state }),
            (
                MessageModel::Switch { state },
                Kind::Lamp,
                Some(MessageModel::Lamp { color_temp, brightness, .. }),
            ) => convert_spec(source, target, context) == Ok::<MessageModel, ConvertError>(
                MessageModel::Lamp { color_temp, brightness, state },
            ),
            (MessageModel::Switch { .. }, Kind::Lamp, _) => convert_spec(source, target, context)
                == Err::<MessageModel, ConvertError>(ConvertError::MissingContext),
            (
                MessageModel::Switch { state },
                Kind::Dimmer,
                Some(MessageModel::Dimmer { brightness, .. }),
            ) => convert_spec(source, target, context) == Ok::<MessageModel, ConvertError>(
                MessageModel::Dimmer { brightness, state },
            ),
            (MessageModel::Switch { .. }, Kind::Dimmer, _) => convert_spec(source, target, context)
                == Err::<MessageModel, ConvertError>(ConvertError::MissingContext),
            (
                MessageModel::Dimmer { brightness, state },
                Kind::Lamp,
                Some(MessageModel::Lamp { color_temp, .. }),
            ) => convert_spec(source, target, context) == Ok::<MessageModel, ConvertError>(
                MessageModel::Lamp { color_temp, brightness, state },
            ),
            (MessageModel::Dimmer { .. }, Kind::Lamp, _) => convert_spec(source, target, context)
                == Err::<MessageModel, ConvertError>(ConvertError::MissingContext),
            (MessageModel::Dimmer { state, .. }, Kind::Switch, _) => convert_spec(
                source,
                target,
                context,
            ) == Ok::<MessageModel, ConvertError>(MessageModel::Switch { state }),
            _ => convert_spec(source, target, context) == Err::<MessageModel, ConvertError>(
                ConvertError::NoConversion,
            ),
        },
{
}

} // verus!
