//! The log of edited and deleted messages.
use vstd::prelude::*;
use crate::text::{decimal, truncate_str, truncated, truncation_defined, u64_to_string};
use crate::time::{day_month_year_text, format_day_month_year, snowflake_created_ms};
use crate::username::{safe_full_spec, Username};

verus! {

/// Name of the history module.
pub fn module_name() -> (r: &'static str)
    ensures
        r@ == "history"@,
{
    "history"
}

/// Description of the history module.
pub fn module_description() -> (r: &'static str)
    ensures
        r@ == "Historique des messages modifiés et supprimés"@,
{
    "Historique des messages modifiés et supprimés"
}

/// The URLs of attachments, each followed by a space.
pub open spec fn attachments_text(urls: Seq<Seq<char>>) -> Seq<char>
    decreases urls.len(),
{
    if urls.len() == 0 {
        Seq::empty()
    } else {
        attachments_text(urls.drop_last()) + urls.last() + " "@
    }
}

/// Views of strings.
pub open spec fn urls_view(urls: Seq<String>) -> Seq<Seq<char>> {
    urls.map_values(|u: String| u@)
}

/// Writes the URLs of attachments, each followed by a space.
pub fn attachments_line(urls: &Vec<String>) -> (r: String)
    ensures
        r@ == attachments_text(urls_view(urls@)),
{
    let mut r = String::new();
    let mut i: usize = 0;
    while i < urls.len()
        invariant
            i <= urls@.len(),
            r@ == attachments_text(urls_view(urls@).take(i as int)),
        decreases urls@.len() - i,
    {
        r.append(urls[i].as_str());
        r.append(" ");
        proof {
            reveal_strlit(" ");
        }
        assert(urls_view(urls@).take(i + 1).drop_last() =~= urls_view(urls@).take(i as int));
        i = i + 1;
        assert(r@ =~= attachments_text(urls_view(urls@).take(i as int)));
    }
    assert(urls_view(urls@).take(i as int) =~= urls_view(urls@));
    r
}

/// How a member is named in the log: the safe name and the id in brackets.
pub open spec fn user_line_spec(u: Username) -> Seq<char> {
    safe_full_spec(u.handle@, u.server_name@) + " ("@ + decimal(u.id as nat) + ")"@
}

/// How a member, if known, is named in the log.
pub open spec fn maybe_user_line(u: Option<Username>) -> Seq<char> {
    match u {
        Some(x) => user_line_spec(x),
        None => "Unknown user"@,
    }
}

/// How a member, if known, is named in the log.
pub fn user_line(u: Option<&Username>) -> (r: String)
    ensures
        r@ == maybe_user_line(match u {
            Some(x) => Some(*x),
            None => None,
        }),
{
    match u {
        None => "Unknown user".to_owned(),
        Some(x) => {
            let mut r = x.safe_full();
            r.append(" (");
            let id = u64_to_string(x.id);
            r.append(id.as_str());
            r.append(")");
            proof {
                reveal_strlit(" (");
                reveal_strlit(")");
            }
            r
        },
    }
}

/// A message as the log knows it: its author, its text and the URLs of its attachments.
pub struct LoggedMessage {
    pub author: Username,
    pub content: String,
    pub attachments: Vec<String>,
}

/// The text of a message as the log shows it: its content, or else its attachments.
pub open spec fn shown_text(content: Seq<char>, attachments: Seq<Seq<char>>) -> Seq<char> {
    if content.len() == 0 {
        attachments_text(attachments)
    } else {
        content
    }
}

fn text_of_message(content: &String, attachments: &Vec<String>) -> (r: String)
    ensures
        r@ == shown_text(content@, urls_view(attachments@)),
{
    if content.as_str().unicode_len() == 0 {
        attachments_line(attachments)
    } else {
        content.clone()
    }
}

/// An embed of the log: its title, its text and its fields (name and value).
pub struct LogEmbed {
    pub title: String,
    pub description: String,
    pub fields: Vec<(String, String)>,
}

/// Fields seen as plain values.
pub open spec fn pairs_view(v: Seq<(String, String)>) -> Seq<(Seq<char>, Seq<char>)> {
    v.map_values(|p: (String, String)| (p.0@, p.1@))
}

/// The second, since the UNIX epoch, at which a Discord id was made.
pub open spec fn creation_second(id: u64) -> i64 {
    ((((id >> 22u64) as int) + crate::time::discord_epoch_ms()) / 1000) as i64
}

/// The date a message id was made, as the log writes it (`%d %B %Y` of its creation second).
pub fn message_date(message_id: u64) -> (r: Option<String>)
    ensures
        match r {
            Some(s) => day_month_year_text(creation_second(message_id)) == Some(s@),
            None => day_month_year_text(creation_second(message_id)) is None,
        },
{
    let ms = snowflake_created_ms(message_id);
    let secs = ms / 1000;
    assert(secs <= i64::MAX);
    format_day_month_year(secs as i64)
}

/// What the log keeps of a deleted message that the cache remembered: its content; else the URLs of
/// its attachments; else the mention of an old message with its link.
pub open spec fn deleted_text_spec(content: Seq<char>, attachments: Seq<Seq<char>>, link: Seq<char>) -> Seq<char> {
    if content.len() > 0 {
        content
    } else if attachments.len() > 0 {
        attachments_text(attachments)
    } else {
        "Ancien message : "@ + link
    }
}

/// A deleted message with text is logged with exactly that text, whatever its attachments and link.
pub proof fn lemma_deleted_text_kept(content: Seq<char>, attachments: Seq<Seq<char>>, link: Seq<char>)
    requires
        content.len() > 0,
    ensures
        deleted_text_spec(content, attachments, link) == content,
{
}

/// What the log keeps of a deleted message that the cache remembered.
pub fn deleted_text(content: &String, attachments: &Vec<String>, link: &str) -> (r: String)
    ensures
        r@ == deleted_text_spec(content@, urls_view(attachments@), link@),
{
    if content.as_str().unicode_len() > 0 {
        content.clone()
    } else if attachments.len() > 0 {
        attachments_line(attachments)
    } else {
        let mut r = String::new();
        r.append("Ancien message : ");
        r.append(link);
        proof {
            reveal_strlit("Ancien message : ");
        }
        r
    }
}

/// The log entry of a deleted message. With the message known (its author and text), the title
/// names who deleted it (`by`, from the audit log) and a field holds its text, cut to 1024 bytes;
/// unknown, only the date and the link are logged.
pub open spec fn deletion_embed_spec(
    date: Seq<char>,
    link: Seq<char>,
    deleted: Option<(Username, Seq<char>)>,
    by: Option<Username>,
) -> (Seq<char>, Seq<char>, Seq<(Seq<char>, Seq<char>)>) {
    match deleted {
        Some((author, text)) => (
            "Message du "@ + date + " supprimé par "@ + maybe_user_line(by),
            link,
            seq![("de : "@ + user_line_spec(author), truncated(text, 1024))],
        ),
        None => ("Ancien message du "@ + date + " supprimé"@, link, Seq::empty()),
    }
}

/// Writes the log entry of a deleted message; none for a message of the bot itself.
pub fn deletion_report(
    date: &str,
    link: &str,
    deleted: Option<&LoggedMessage>,
    by: Option<&Username>,
    application_id: u64,
) -> (r: Option<LogEmbed>)
    requires
        deleted matches Some(d) ==> truncation_defined(
            deleted_text_spec(d.content@, urls_view(d.attachments@), link@),
            1024,
        ),
    ensures
        (deleted matches Some(d) && d.author.id == application_id) <==> r is None,
        r matches Some(e) ==> (e.title@, e.description@, pairs_view(e.fields@)) == deletion_embed_spec(
            date@,
            link@,
            match deleted {
                Some(d) => Some((d.author, deleted_text_spec(d.content@, urls_view(d.attachments@), link@))),
                None => None,
            },
            match by {
                Some(b) => Some(*b),
                None => None,
            },
        ),
{
    proof {
        reveal_strlit("Message du ");
        reveal_strlit(" supprimé par ");
        reveal_strlit("de : ");
        reveal_strlit("Ancien message du ");
        reveal_strlit(" supprimé");
    }
    match deleted {
        Some(d) => {
            if d.author.id == application_id {
                return None;
            }
            let text = deleted_text(&d.content, &d.attachments, link);
            let mut title = String::new();
            title.append("Message du ");
            title.append(date);
            title.append(" supprimé par ");
            let from = user_line(by);
            title.append(from.as_str());
            let mut name = String::new();
            name.append("de : ");
            let author = user_line(Some(&d.author));
            name.append(author.as_str());
            let value = truncate_str(text.as_str(), 1024);
            let mut fields: Vec<(String, String)> = Vec::new();
            fields.push((name, value));
            let e = LogEmbed { title, description: link.to_owned(), fields };
            assert(pairs_view(e.fields@) =~= seq![("de : "@ + user_line_spec(d.author), truncated(text@, 1024))]);
            Some(e)
        },
        None => {
            let mut title = String::new();
            title.append("Ancien message du ");
            title.append(date);
            title.append(" supprimé");
            let fields: Vec<(String, String)> = Vec::new();
            let e = LogEmbed { title, description: link.to_owned(), fields };
            assert(pairs_view(e.fields@) =~= Seq::<(Seq<char>, Seq<char>)>::empty());
            Some(e)
        },
    }
}

/// The texts of an edited message as the log shows them: before, and after. The text before comes
/// from the old message; the text after from the new message, else from the event's content, else
/// from the event's attachments.
pub open spec fn edit_texts_spec(
    old: Option<(Seq<char>, Seq<Seq<char>>)>,
    new: Option<(Seq<char>, Seq<Seq<char>>)>,
    event_content: Option<Seq<char>>,
    event_attachments: Option<Seq<Seq<char>>>,
) -> (Seq<char>, Seq<char>) {
    let old_text = match old {
        Some((c, a)) => shown_text(c, a),
        None => Seq::empty(),
    };
    let from_new = match new {
        Some((c, a)) => shown_text(c, a),
        None => Seq::empty(),
    };
    let with_content = if from_new.len() == 0 {
        match event_content {
            Some(c) => c,
            None => from_new,
        }
    } else {
        from_new
    };
    let new_text = if with_content.len() == 0 {
        match event_attachments {
            Some(a) => with_content + attachments_text(a),
            None => with_content,
        }
    } else {
        with_content
    };
    (old_text, new_text)
}

/// The author named by the log of an edit: the event's author, else the old message's, else the
/// new message's.
pub open spec fn edit_author_spec(event_author: Option<Username>, old: Option<Username>, new: Option<Username>) -> Option<Username> {
    if event_author is Some {
        event_author
    } else if old is Some {
        old
    } else {
        new
    }
}

/// The log entry of an edited message: the author as title, the link, and the texts before and
/// after (each when not empty), cut to 1024 bytes.
pub open spec fn edit_embed_spec(author: Option<Username>, link: Seq<char>, texts: (Seq<char>, Seq<char>)) -> (Seq<char>, Seq<char>, Seq<(Seq<char>, Seq<char>)>) {
    (
        maybe_user_line(author),
        "Message modifié : "@ + link,
        (if texts.0.len() > 0 {
            seq![("ancien"@, truncated(texts.0, 1024))]
        } else {
            Seq::empty()
        }) + (if texts.1.len() > 0 {
            seq![("nouveau"@, truncated(texts.1, 1024))]
        } else {
            Seq::empty()
        }),
    )
}

/// A message seen by its text and its attachments.
pub open spec fn message_parts(m: Option<&LoggedMessage>) -> Option<(Seq<char>, Seq<Seq<char>>)> {
    match m {
        Some(x) => Some((x.content@, urls_view(x.attachments@))),
        None => None,
    }
}

/// The author of a message, if any.
pub open spec fn message_author(m: Option<&LoggedMessage>) -> Option<Username> {
    match m {
        Some(x) => Some(x.author),
        None => None,
    }
}

/// The texts of an edited message as the log shows them: before, and after.
pub fn edit_texts(
    old: Option<&LoggedMessage>,
    new: Option<&LoggedMessage>,
    event_content: Option<&String>,
    event_attachments: Option<&Vec<String>>,
) -> (r: (String, String))
    ensures
        (r.0@, r.1@) == edit_texts_spec(
            message_parts(old),
            message_parts(new),
            match event_content {
                Some(c) => Some(c@),
                None => None,
            },
            match event_attachments {
                Some(a) => Some(urls_view(a@)),
                None => None,
            },
        ),
{
    let old_text = match old {
        Some(o) => text_of_message(&o.content, &o.attachments),
        None => String::new(),
    };
    let mut new_text = match new {
        Some(n) => text_of_message(&n.content, &n.attachments),
        None => String::new(),
    };
    if new_text.as_str().unicode_len() == 0 {
        match event_content {
            Some(c) => {
                new_text = c.clone();
            },
            None => {},
        }
        if new_text.as_str().unicode_len() == 0 {
            match event_attachments {
                Some(a) => {
                    let extra = attachments_line(a);
                    new_text.append(extra.as_str());
                },
                None => {},
            }
        }
    }
    (old_text, new_text)
}

/// Writes the log entry of an edited message; none when the new message is the bot's own.
pub fn edit_report(
    link: &str,
    event_author: Option<&Username>,
    old: Option<&LoggedMessage>,
    new: Option<&LoggedMessage>,
    event_content: Option<&String>,
    event_attachments: Option<&Vec<String>>,
    application_id: u64,
) -> (r: Option<LogEmbed>)
    requires
        ({
            let texts = edit_texts_spec(
                message_parts(old),
                message_parts(new),
                match event_content {
                    Some(c) => Some(c@),
                    None => None,
                },
                match event_attachments {
                    Some(a) => Some(urls_view(a@)),
                    None => None,
                },
            );
            truncation_defined(texts.0, 1024) && truncation_defined(texts.1, 1024)
        }),
    ensures
        (new matches Some(n) && n.author.id == application_id) <==> r is None,
        r matches Some(e) ==> (e.title@, e.description@, pairs_view(e.fields@)) == edit_embed_spec(
            edit_author_spec(
                match event_author {
                    Some(a) => Some(*a),
                    None => None,
                },
                message_author(old),
                message_author(new),
            ),
            link@,
            edit_texts_spec(
                message_parts(old),
                message_parts(new),
                match event_content {
                    Some(c) => Some(c@),
                    None => None,
                },
                match event_attachments {
                    Some(a) => Some(urls_view(a@)),
                    None => None,
                },
            ),
        ),
{
    match new {
        Some(n) => {
            if n.author.id == application_id {
                return None;
            }
        },
        None => {},
    }
    let (old_text, new_text) = edit_texts(old, new, event_content, event_attachments);
    let author: Option<&Username> = match event_author {
        Some(a) => Some(a),
        None => match old {
            Some(o) => Some(&o.author),
            None => match new {
                Some(n) => Some(&n.author),
                None => None,
            },
        },
    };
    let title = user_line(author);
    let mut description = String::new();
    description.append("Message modifié : ");
    description.append(link);
    proof {
        reveal_strlit("Message modifié : ");
    }
    let mut fields: Vec<(String, String)> = Vec::new();
    if old_text.as_str().unicode_len() > 0 {
        fields.push(("ancien".to_owned(), truncate_str(old_text.as_str(), 1024)));
    }
    let ghost first = fields@;
    if new_text.as_str().unicode_len() > 0 {
        fields.push(("nouveau".to_owned(), truncate_str(new_text.as_str(), 1024)));
    }
    let ghost texts = (old_text@, new_text@);
    assert(pairs_view(fields@) =~= (if texts.0.len() > 0 {
        seq![("ancien"@, truncated(texts.0, 1024))]
    } else {
        Seq::empty()
    }) + (if texts.1.len() > 0 {
        seq![("nouveau"@, truncated(texts.1, 1024))]
    } else {
        Seq::empty()
    }));
    Some(LogEmbed { title, description, fields })
}

} // verus!
