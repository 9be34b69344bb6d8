//! Chats with agents. Every chat belongs to one workspace and one scope.
use vstd::prelude::*;

use crate::error::{AppError, AppResult};
use crate::model::{AgentProvider, ChatMessageRecord, ChatThread};
use crate::store::connections::visible_row;
use crate::store::directory::{active_workspace_of, local_scope};
use crate::store::order::{arrange, arranged, Ordered};
use crate::store::records::same_scope;
use crate::store::tables::{Store, Tables, ThreadRow};
use crate::text::Text;

verus! {

impl Ordered for ThreadRow {
    /// The one that changed last first.
    open spec fn goes_before(self, earlier: ThreadRow) -> bool {
        self.thread.updated_at > earlier.thread.updated_at
    }

    fn is_before(&self, earlier: &ThreadRow) -> bool {
        self.thread.updated_at > earlier.thread.updated_at
    }
}

impl Ordered for ChatMessageRecord {
    /// The oldest first.
    open spec fn goes_before(self, earlier: ChatMessageRecord) -> bool {
        self.created_at < earlier.created_at
    }

    fn is_before(&self, earlier: &ChatMessageRecord) -> bool {
        self.created_at < earlier.created_at
    }
}

/// The workspace and the scope that chats are looked up in.
pub open spec fn chat_scope(tables: Tables) -> Result<(u128, Text), AppError> {
    match active_workspace_of(tables) {
        Err(error) => Err(error),
        Ok(workspace) => match local_scope(tables) {
            Err(error) => Err(error),
            Ok(scope) => Ok((workspace.id, scope)),
        },
    }
}

/// Whether a chat belongs to this workspace and scope.
pub open spec fn is_own(row: ThreadRow, workspace_id: u128, scope: Seq<char>) -> bool {
    row.workspace_id == workspace_id && row.account_scope@ == scope
}

fn owns(row: &ThreadRow, workspace_id: u128, scope: &Text) -> (r: bool)
    ensures
        r == is_own(*row, workspace_id, scope@),
{
    row.workspace_id == workspace_id && same_scope(&row.account_scope, scope)
}

/// The chats of this workspace and scope.
pub open spec fn own_rows(threads: Seq<ThreadRow>, workspace_id: u128, scope: Seq<char>) -> Seq<
    ThreadRow,
>
    decreases threads.len(),
{
    if threads.len() == 0 {
        Seq::empty()
    } else {
        let earlier = own_rows(threads.drop_last(), workspace_id, scope);
        if is_own(threads.last(), workspace_id, scope) {
            earlier.push(threads.last())
        } else {
            earlier
        }
    }
}

/// Whether a row is the chat with this id in this workspace and scope.
pub open spec fn is_thread(row: ThreadRow, id: u128, workspace_id: u128, scope: Seq<char>) -> bool {
    row.thread.id == id && is_own(row, workspace_id, scope)
}

/// The chat with this id in this workspace and scope.
pub open spec fn thread_row(
    threads: Seq<ThreadRow>,
    id: u128,
    workspace_id: u128,
    scope: Seq<char>,
) -> Option<ThreadRow>
    decreases threads.len(),
{
    if threads.len() == 0 {
        None
    } else if is_thread(threads[0], id, workspace_id, scope) {
        Some(threads[0])
    } else {
        thread_row(threads.drop_first(), id, workspace_id, scope)
    }
}

/// Computes [`thread_row`].
fn find_thread(threads: &Vec<ThreadRow>, id: u128, workspace_id: u128, scope: &Text) -> (r: Option<
    ThreadRow,
>)
    ensures
        r == thread_row(threads@, id, workspace_id, scope@),
{
    let mut i: usize = 0;
    assert(threads@.subrange(0, threads@.len() as int) =~= threads@);
    while i < threads.len()
        invariant
            i <= threads@.len(),
            thread_row(threads@, id, workspace_id, scope@) == thread_row(
                threads@.subrange(i as int, threads@.len() as int),
                id,
                workspace_id,
                scope@,
            ),
        decreases threads@.len() - i,
    {
        assert(threads@.subrange(i as int, threads@.len() as int).drop_first()
            =~= threads@.subrange(i + 1, threads@.len() as int));
        if threads[i].thread.id == id && owns(&threads[i], workspace_id, scope) {
            return Some(threads[i].duplicate());
        }
        i = i + 1;
    }
    None
}

/// No chat is found under this id.
pub open spec fn no_thread(id: u128) -> AppError {
    AppError::NotFound(Text::WithId("chat thread ", id, ""))
}

fn say_no_thread(id: u128) -> (r: AppError)
    ensures
        r == no_thread(id),
{
    AppError::NotFound(Text::WithId("chat thread ", id, ""))
}

/// What is found under an id.
pub open spec fn thread_lookup(tables: Tables, id: u128) -> Result<ChatThread, AppError> {
    match chat_scope(tables) {
        Err(error) => Err(error),
        Ok((workspace_id, scope)) => match thread_row(tables.threads, id, workspace_id, scope@) {
            Some(row) => Ok(row.thread),
            None => Err(no_thread(id)),
        },
    }
}

/// The chats without the one with this id in this workspace and scope.
pub open spec fn without_thread(
    threads: Seq<ThreadRow>,
    id: u128,
    workspace_id: u128,
    scope: Seq<char>,
) -> Seq<ThreadRow>
    decreases threads.len(),
{
    if threads.len() == 0 {
        Seq::empty()
    } else {
        let earlier = without_thread(threads.drop_last(), id, workspace_id, scope);
        if is_thread(threads.last(), id, workspace_id, scope) {
            earlier
        } else {
            earlier.push(threads.last())
        }
    }
}

/// The messages without those of this chat.
pub open spec fn without_messages(messages: Seq<ChatMessageRecord>, thread_id: u128) -> Seq<
    ChatMessageRecord,
>
    decreases messages.len(),
{
    if messages.len() == 0 {
        Seq::empty()
    } else {
        let earlier = without_messages(messages.drop_last(), thread_id);
        if messages.last().thread_id == thread_id {
            earlier
        } else {
            earlier.push(messages.last())
        }
    }
}

/// The messages of this chat.
pub open spec fn messages_of(messages: Seq<ChatMessageRecord>, thread_id: u128) -> Seq<
    ChatMessageRecord,
>
    decreases messages.len(),
{
    if messages.len() == 0 {
        Seq::empty()
    } else {
        let earlier = messages_of(messages.drop_last(), thread_id);
        if messages.last().thread_id == thread_id {
            earlier.push(messages.last())
        } else {
            earlier
        }
    }
}

/// A chat after a turn ended. Its title is set once: a later turn leaves it as it is.
pub open spec fn after_turn(
    thread: ChatThread,
    cli_session_id: Option<String>,
    model: Option<String>,
    effort: Option<String>,
    title_if_empty: String,
    now: i128,
) -> ChatThread {
    ChatThread {
        cli_session_id,
        model,
        effort,
        updated_at: now,
        title: if thread.title@.len() == 0 {
            title_if_empty
        } else {
            thread.title
        },
        ..thread
    }
}

/// The chats after a turn of one of them ended.
pub open spec fn with_turn(
    threads: Seq<ThreadRow>,
    id: u128,
    workspace_id: u128,
    scope: Seq<char>,
    cli_session_id: Option<String>,
    model: Option<String>,
    effort: Option<String>,
    title_if_empty: String,
    now: i128,
) -> Seq<ThreadRow> {
    Seq::new(
        threads.len(),
        |i: int|
            if is_thread(threads[i], id, workspace_id, scope) {
                ThreadRow {
                    thread: after_turn(
                        threads[i].thread,
                        cli_session_id,
                        model,
                        effort,
                        title_if_empty,
                        now,
                    ),
                    ..threads[i]
                }
            } else {
                threads[i]
            },
    )
}

/// Whether a chat, of whatever scope, has this id.
pub open spec fn has_thread(threads: Seq<ThreadRow>, id: u128) -> bool {
    exists|i: int| 0 <= i < threads.len() && (#[trigger] threads[i]).thread.id == id
}

/// Computes [`has_thread`].
fn holds_thread(threads: &Vec<ThreadRow>, id: u128) -> (r: bool)
    ensures
        r == has_thread(threads@, id),
{
    let mut i: usize = 0;
    while i < threads.len()
        invariant
            i <= threads@.len(),
            forall|j: int| 0 <= j < i ==> (#[trigger] threads@[j]).thread.id != id,
        decreases threads@.len() - i,
    {
        if threads[i].thread.id == id {
            return true;
        }
        i = i + 1;
    }
    false
}

/// Whether a message, of whatever chat, has this id.
pub open spec fn has_message(messages: Seq<ChatMessageRecord>, id: u128) -> bool {
    exists|i: int| 0 <= i < messages.len() && (#[trigger] messages[i]).id == id
}

/// Computes [`has_message`].
fn holds_message(messages: &Vec<ChatMessageRecord>, id: u128) -> (r: bool)
    ensures
        r == has_message(messages@, id),
{
    let mut i: usize = 0;
    while i < messages.len()
        invariant
            i <= messages@.len(),
            forall|j: int| 0 <= j < i ==> (#[trigger] messages@[j]).id != id,
        decreases messages@.len() - i,
    {
        if messages[i].id == id {
            return true;
        }
        i = i + 1;
    }
    false
}

/// The workspace and the scope in which a chat about a connection is begun under an id, or why
/// it cannot be begun: an id stands for one chat.
pub open spec fn new_chat_scope(tables: Tables, connection_id: u128, id: u128) -> Result<
    (u128, Text),
    AppError,
> {
    match visible_row(tables, connection_id) {
        Err(error) => Err(error),
        Ok(_) => match chat_scope(tables) {
            Err(error) => Err(error),
            Ok(scope) => if has_thread(tables.threads, id) {
                Err(AppError::Host(Text::Plain("UNIQUE constraint failed: agent_chat_threads.id")))
            } else {
                Ok(scope)
            },
        },
    }
}

/// Why a message cannot be added to a chat under an id, if it cannot.
pub open spec fn message_refusal(tables: Tables, thread_id: u128, id: u128) -> Option<AppError> {
    match thread_lookup(tables, thread_id) {
        Err(error) => Some(error),
        Ok(_) => if has_message(tables.messages, id) {
            Some(AppError::Host(Text::Plain("UNIQUE constraint failed: agent_chat_messages.id")))
        } else {
            None
        },
    }
}

impl Store {
    fn chat_scope(&self) -> (r: AppResult<(u128, Text)>)
        ensures
            r == chat_scope(self@),
    {
        match self.active_workspace_id() {
            Err(error) => Err(error),
            Ok(workspace_id) => match self.active_local_scope() {
                Err(error) => Err(error),
                Ok(scope) => Ok((workspace_id, scope)),
            },
        }
    }

    /// Begins a chat about a connection, under this id and without a title.
    pub fn create_chat_thread(
        &mut self,
        provider: AgentProvider,
        connection_id: u128,
        model: Option<String>,
        effort: Option<String>,
        id: u128,
        now: i128,
    ) -> (r: AppResult<ChatThread>)
        ensures
            match new_chat_scope(old(self)@, connection_id, id) {
                Err(error) => r == Err::<ChatThread, AppError>(error) && final(self)@
                    == old(self)@,
                Ok((workspace_id, account_scope)) => {
                    &&& r is Ok
                    &&& r->Ok_0 == (ChatThread {
                        id,
                        provider,
                        connection_id: Some(connection_id),
                        title: r->Ok_0.title,
                        cli_session_id: None,
                        model,
                        effort,
                        created_at: now,
                        updated_at: now,
                    })
                    &&& r->Ok_0.title@ == Seq::<char>::empty()
                    &&& final(self)@ == (Tables {
                        threads: old(self)@.threads.push(
                            ThreadRow { thread: r->Ok_0, workspace_id, account_scope },
                        ),
                        ..old(self)@
                    })
                },
            },
    {
        match self.ensure_connection(connection_id) {
            Err(error) => {
                return Err(error);
            },
            Ok(_) => {},
        }
        let (workspace_id, account_scope) = match self.chat_scope() {
            Err(error) => {
                return Err(error);
            },
            Ok(found) => found,
        };
        if holds_thread(&self.threads, id) {
            return Err(
                AppError::Host(Text::Plain("UNIQUE constraint failed: agent_chat_threads.id")),
            );
        }
        let thread = ChatThread {
            id,
            provider,
            connection_id: Some(connection_id),
            title: String::new(),
            cli_session_id: None,
            model,
            effort,
            created_at: now,
            updated_at: now,
        };
        self.threads.push(ThreadRow { thread: thread.duplicate(), workspace_id, account_scope });
        Ok(thread)
    }

    /// The chats, the one that changed last first.
    pub fn list_chat_threads(&self) -> (r: AppResult<Vec<ChatThread>>)
        ensures
            match chat_scope(self@) {
                Err(error) => r == Err::<Vec<ChatThread>, AppError>(error),
                Ok((workspace_id, scope)) => {
                    let rows = arranged(own_rows(self@.threads, workspace_id, scope@));
                    r is Ok && r->Ok_0@ == Seq::new(rows.len(), |i: int| rows[i].thread)
                },
            },
    {
        let (workspace_id, scope) = match self.chat_scope() {
            Err(error) => {
                return Err(error);
            },
            Ok(found) => found,
        };
        let mut rows: Vec<ThreadRow> = Vec::new();
        let mut i: usize = 0;
        while i < self.threads.len()
            invariant
                i <= self.threads@.len(),
                rows@ == own_rows(self.threads@.subrange(0, i as int), workspace_id, scope@),
            decreases self.threads@.len() - i,
        {
            assert(self.threads@.subrange(0, i + 1).drop_last() =~= self.threads@.subrange(
                0,
                i as int,
            ));
            if owns(&self.threads[i], workspace_id, &scope) {
                rows.push(self.threads[i].duplicate());
            }
            i = i + 1;
        }
        assert(self.threads@.subrange(0, self.threads@.len() as int) =~= self.threads@);
        let rows = arrange(rows);
        let mut threads: Vec<ChatThread> = Vec::new();
        let mut i: usize = 0;
        while i < rows.len()
            invariant
                i <= rows@.len(),
                threads@ == Seq::new(i as nat, |k: int| rows@[k].thread),
            decreases rows@.len() - i,
        {
            threads.push(rows[i].thread.duplicate());
            i = i + 1;
            assert(threads@ =~= Seq::new(i as nat, |k: int| rows@[k].thread));
        }
        Ok(threads)
    }

    /// A chat.
    pub fn get_chat_thread(&self, id: u128) -> (r: AppResult<ChatThread>)
        ensures
            r == thread_lookup(self@, id),
    {
        match self.chat_scope() {
            Err(error) => Err(error),
            Ok((workspace_id, scope)) => match find_thread(
                &self.threads,
                id,
                workspace_id,
                &scope,
            ) {
                Some(row) => Ok(row.thread),
                None => Err(say_no_thread(id)),
            },
        }
    }

    /// Deletes a chat and its messages.
    pub fn delete_chat_thread(&mut self, id: u128) -> (r: AppResult<()>)
        ensures
            match thread_lookup(old(self)@, id) {
                Err(error) => r == Err::<(), AppError>(error) && final(self)@ == old(self)@,
                Ok(_) => {
                    let (workspace_id, scope) = chat_scope(old(self)@)->Ok_0;
                    r is Ok && final(self)@ == (Tables {
                        threads: without_thread(
                            old(self)@.threads,
                            id,
                            workspace_id,
                            scope@,
                        ),
                        messages: without_messages(old(self)@.messages, id),
                        ..old(self)@
                    })
                },
            },
    {
        let (workspace_id, scope) = match self.chat_scope() {
            Err(error) => {
                return Err(error);
            },
            Ok(found) => found,
        };
        if find_thread(&self.threads, id, workspace_id, &scope).is_none() {
            return Err(say_no_thread(id));
        }
        let mut threads: Vec<ThreadRow> = Vec::new();
        let mut i: usize = 0;
        while i < self.threads.len()
            invariant
                i <= self.threads@.len(),
                self@ == old(self)@,
                threads@ == without_thread(
                    self.threads@.subrange(0, i as int),
                    id,
                    workspace_id,
                    scope@,
                ),
            decreases self.threads@.len() - i,
        {
            assert(self.threads@.subrange(0, i + 1).drop_last() =~= self.threads@.subrange(
                0,
                i as int,
            ));
            if !(self.threads[i].thread.id == id && owns(&self.threads[i], workspace_id, &scope)) {
                threads.push(self.threads[i].duplicate());
            }
            i = i + 1;
        }
        assert(self.threads@.subrange(0, self.threads@.len() as int) =~= self.threads@);
        let mut messages: Vec<ChatMessageRecord> = Vec::new();
        let mut i: usize = 0;
        while i < self.messages.len()
            invariant
                i <= self.messages@.len(),
                self@ == old(self)@,
                messages@ == without_messages(self.messages@.subrange(0, i as int), id),
            decreases self.messages@.len() - i,
        {
            assert(self.messages@.subrange(0, i + 1).drop_last() =~= self.messages@.subrange(
                0,
                i as int,
            ));
            if self.messages[i].thread_id != id {
                messages.push(self.messages[i].duplicate());
            }
            i = i + 1;
        }
        assert(self.messages@.subrange(0, self.messages@.len() as int) =~= self.messages@);
        self.threads = threads;
        self.messages = messages;
        Ok(())
    }

    /// Takes down how a turn of a chat ended.
    pub fn finish_chat_turn(
        &mut self,
        thread_id: u128,
        cli_session_id: Option<String>,
        model: Option<String>,
        effort: Option<String>,
        title_if_empty: String,
        now: i128,
    ) -> (r: AppResult<()>)
        ensures
            match thread_lookup(old(self)@, thread_id) {
                Err(error) => r == Err::<(), AppError>(error) && final(self)@ == old(self)@,
                Ok(_) => {
                    let (workspace_id, scope) = chat_scope(old(self)@)->Ok_0;
                    r is Ok && final(self)@ == (Tables {
                        threads: with_turn(
                            old(self)@.threads,
                            thread_id,
                            workspace_id,
                            scope@,
                            cli_session_id,
                            model,
                            effort,
                            title_if_empty,
                            now,
                        ),
                        ..old(self)@
                    })
                },
            },
    {
        let (workspace_id, scope) = match self.chat_scope() {
            Err(error) => {
                return Err(error);
            },
            Ok(found) => found,
        };
        if find_thread(&self.threads, thread_id, workspace_id, &scope).is_none() {
            return Err(say_no_thread(thread_id));
        }
        let ghost before = self.threads@;
        let mut i: usize = 0;
        while i < self.threads.len()
            invariant
                before == old(self)@.threads,
                chat_scope(old(self)@) == Ok::<(u128, Text), AppError>((workspace_id, scope)),
                thread_lookup(old(self)@, thread_id) is Ok,
                self@ == (Tables { threads: self.threads@, ..old(self)@ }),
                self.threads@.len() == before.len(),
                i <= self.threads@.len(),
                forall|j: int|
                    0 <= j < i ==> #[trigger] self.threads@[j] == with_turn(
                        before,
                        thread_id,
                        workspace_id,
                        scope@,
                        cli_session_id,
                        model,
                        effort,
                        title_if_empty,
                        now,
                    )[j],
                forall|j: int| i <= j < before.len() ==> #[trigger] self.threads@[j] == before[j],
            decreases self.threads@.len() - i,
        {
            if self.threads[i].thread.id == thread_id && owns(
                &self.threads[i],
                workspace_id,
                &scope,
            ) {
                let mut row = self.threads[i].duplicate();
                if row.thread.title.as_str().is_empty() {
                    row.thread.title = title_if_empty.clone();
                }
                row.thread.cli_session_id = cli_session_id.clone();
                row.thread.model = model.clone();
                row.thread.effort = effort.clone();
                row.thread.updated_at = now;
                self.threads.set(i, row);
            }
            i = i + 1;
        }
        assert(self.threads@ =~= with_turn(
            before,
            thread_id,
            workspace_id,
            scope@,
            cli_session_id,
            model,
            effort,
            title_if_empty,
            now,
        ));
        Ok(())
    }

    /// Adds a message to a chat, under this id.
    pub fn insert_chat_message(
        &mut self,
        thread_id: u128,
        role: String,
        text: String,
        error: Option<String>,
        id: u128,
        now: i128,
    ) -> (r: AppResult<ChatMessageRecord>)
        ensures
            match message_refusal(old(self)@, thread_id, id) {
                Some(failure) => r == Err::<ChatMessageRecord, AppError>(failure) && final(self)@
                    == old(self)@,
                None => {
                    let message = ChatMessageRecord {
                        id,
                        thread_id,
                        role,
                        text,
                        error,
                        created_at: now,
                    };
                    r == Ok::<ChatMessageRecord, AppError>(message) && final(self)@ == (Tables {
                        messages: old(self)@.messages.push(message),
                        ..old(self)@
                    })
                },
            },
    {
        match self.get_chat_thread(thread_id) {
            Err(failure) => Err(failure),
            Ok(_) => {
                if holds_message(&self.messages, id) {
                    return Err(
                        AppError::Host(
                            Text::Plain("UNIQUE constraint failed: agent_chat_messages.id"),
                        ),
                    );
                }
                let message = ChatMessageRecord {
                    id,
                    thread_id,
                    role,
                    text,
                    error,
                    created_at: now,
                };
                self.messages.push(message.duplicate());
                Ok(message)
            },
        }
    }

    /// The messages of a chat, the oldest first. A chat that is not found has none.
    pub fn list_chat_messages(&self, thread_id: u128) -> (r: AppResult<Vec<ChatMessageRecord>>)
        ensures
            match chat_scope(self@) {
                Err(error) => r == Err::<Vec<ChatMessageRecord>, AppError>(error),
                Ok((workspace_id, scope)) => r is Ok && r->Ok_0@ == if thread_row(
                    self@.threads,
                    thread_id,
                    workspace_id,
                    scope@,
                ) is Some {
                    arranged(messages_of(self@.messages, thread_id))
                } else {
                    Seq::empty()
                },
            },
    {
        let (workspace_id, scope) = match self.chat_scope() {
            Err(error) => {
                return Err(error);
            },
            Ok(found) => found,
        };
        if find_thread(&self.threads, thread_id, workspace_id, &scope).is_none() {
            return Ok(Vec::new());
        }
        let mut messages: Vec<ChatMessageRecord> = Vec::new();
        let mut i: usize = 0;
        while i < self.messages.len()
            invariant
                i <= self.messages@.len(),
                messages@ == messages_of(self.messages@.subrange(0, i as int), thread_id),
            decreases self.messages@.len() - i,
        {
            assert(self.messages@.subrange(0, i + 1).drop_last() =~= self.messages@.subrange(
                0,
                i as int,
            ));
            if self.messages[i].thread_id == thread_id {
                messages.push(self.messages[i].duplicate());
            }
            i = i + 1;
        }
        assert(self.messages@.subrange(0, self.messages@.len() as int) =~= self.messages@);
        Ok(arrange(messages))
    }
}

} // verus!
