//! `/ss`: opens a public thread to ask questions in.
use vstd::prelude::*;

use crate::discord::channel::ChannelType;
use crate::text::{decimal, decimal_text};

verus! {

/// The notice posted before the thread is created.
pub open spec fn creating_notice_text() -> Seq<char> {
    "スレッドを作成します"@
}

/// The first message posted in the new thread.
pub open spec fn greeting_text() -> Seq<char> {
    "質問してみましょう"@
}

/// The name of the thread opened for the interaction `interaction_id`.
pub open spec fn thread_name_text(interaction_id: u64) -> Seq<char> {
    "SSくん-"@ + decimal_text(interaction_id as nat)
}

/// The notice posted before the thread is created.
pub fn creating_notice() -> (text: String)
    ensures
        text@ == creating_notice_text(),
{
    proof { reveal_strlit("スレッドを作成します"); }
    String::from_str("スレッドを作成します")
}

/// The first message posted in the new thread.
pub fn greeting() -> (text: String)
    ensures
        text@ == greeting_text(),
{
    proof { reveal_strlit("質問してみましょう"); }
    String::from_str("質問してみましょう")
}

/// The name of the thread: `SSくん-` and the interaction's id in decimal.
pub fn thread_name(interaction_id: u64) -> (name: String)
    ensures
        name@ == thread_name_text(interaction_id),
{
    proof { reveal_strlit("SSくん-"); }
    let mut name = String::from_str("SSくん-");
    let id = decimal(interaction_id);
    name.append(id.as_str());
    name
}

/// The kind of the thread: public.
pub fn thread_kind() -> (kind: ChannelType)
    ensures
        kind == ChannelType::PublicThread,
{
    ChannelType::PublicThread
}

} // verus!
