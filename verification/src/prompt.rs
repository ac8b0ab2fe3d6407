//! The prompts sent to an AI provider.
use vstd::prelude::*;
use crate::client::{RequestModel, TranslationRequest, requests_view};
use crate::model::strs_view;
use crate::text::{decimal, decimal_string, is_blank, trim};

verus! {

/// The fixed part of the system prompt.
pub const SYSTEM_PROMPT_BASE: &'static str = "You translate gettext catalog entries. Return JSON only. Preserve placeholders, named tokens, and any HTML/XML-like tags exactly. Do not explain your answer.\n\nWhen given a single entry, return: {\"singular\":\"...\",\"plurals\":[\"...\"]}\nWhen given multiple entries, return a JSON object:\n{\"translations\":[{\"id\":\"1\",\"singular\":\"...\",\"plurals\":[...]}, ...]}";

/// The closing lines of a single-entry prompt.
pub const USER_PROMPT_TAIL: &'static str = "Return valid JSON in this shape:\n{\"singular\":\"...\",\"plurals\":[\"...\"]}\n";

/// The closing lines of a batch prompt, after the number of entries.
pub const BATCH_PROMPT_TAIL: &'static str = " objects in order:\n{\"translations\":[{\"id\":\"1\",\"singular\":\"...\"}, ...]}\nInclude \"plurals\":[...] only if the source has a plural form.\n";

/// The system prompt: the fixed part, and the user's own instructions
/// after it when they are not blank.
pub open spec fn system_prompt_text(custom: Option<Seq<char>>) -> Seq<char> {
    match custom {
        Some(c) => if trim(c).len() > 0 {
            SYSTEM_PROMPT_BASE@ + "\n\nAdditional instructions:\n"@ + c
        } else {
            SYSTEM_PROMPT_BASE@
        },
        None => SYSTEM_PROMPT_BASE@,
    }
}

/// The system prompt, with the user's own instructions if any.
pub fn system_prompt(custom: Option<&str>) -> (r: String)
    ensures
        r@ == system_prompt_text(match custom {
            Some(c) => Some(c@),
            None => None,
        }),
{
    match custom {
        Some(c) => if !is_blank(c) {
            String::from_str(SYSTEM_PROMPT_BASE).concat("\n\nAdditional instructions:\n").concat(c)
        } else {
            String::from_str(SYSTEM_PROMPT_BASE)
        },
        None => String::from_str(SYSTEM_PROMPT_BASE),
    }
}

/// One line `- item` for each item.
pub open spec fn bullet_lines(items: Seq<Seq<char>>) -> Seq<char>
    decreases items.len(),
{
    if items.len() == 0 {
        Seq::empty()
    } else {
        bullet_lines(items.drop_last()) + "- "@ + items.last() + "\n"@
    }
}

/// The text of an optional section: its heading and body, or nothing.
pub open spec fn section(present: bool, text: Seq<char>) -> Seq<char> {
    if present { text } else { Seq::empty() }
}

/// The prompt for one entry: locale, source texts, context, comments and
/// references, then the expected reply shape.
pub open spec fn user_prompt_text(r: RequestModel) -> Seq<char> {
    "Target locale: "@ + r.target_locale + "\nSource singular:\n"@ + r.msgid + "\n"@
        + (match r.msgid_plural {
            Some(p) => "Source plural:\n"@ + p + "\n"@,
            None => Seq::empty(),
        })
        + (match r.msgctxt {
            Some(c) => "Context:\n"@ + c + "\n"@,
            None => Seq::empty(),
        })
        + section(r.comments.len() > 0, "Comments:\n"@ + bullet_lines(r.comments))
        + section(r.references.len() > 0, "References:\n"@ + bullet_lines(r.references))
        + USER_PROMPT_TAIL@
}

fn append_bullets(body: &mut String, items: &Vec<String>)
    ensures
        final(body)@ == old(body)@ + bullet_lines(strs_view(items@)),
{
    let ghost start = body@;
    let mut i: usize = 0;
    assert(strs_view(items@).take(0) =~= Seq::<Seq<char>>::empty());
    assert(start =~= start + bullet_lines(Seq::<Seq<char>>::empty()));
    while i < items.len()
        invariant
            i <= items@.len(),
            body@ == start + bullet_lines(strs_view(items@).take(i as int)),
        decreases items.len() - i,
    {
        let ghost before = body@;
        body.append("- ");
        body.append(items[i].as_str());
        body.append("\n");
        proof {
            let t = strs_view(items@).take(i + 1);
            assert(t.drop_last() =~= strs_view(items@).take(i as int));
            assert(t.last() == items@[i as int]@);
            assert(body@ =~= start + bullet_lines(t));
        }
        i = i + 1;
    }
    assert(strs_view(items@).take(items@.len() as int) =~= strs_view(items@));
}

/// The prompt for one entry.
pub fn user_prompt(request: &TranslationRequest) -> (r: String)
    ensures
        r@ == user_prompt_text(request@),
{
    let mut body = String::from_str("Target locale: ");
    body.append(request.target_locale.as_str());
    body.append("\nSource singular:\n");
    body.append(request.msgid.as_str());
    body.append("\n");
    let ghost head = body@;
    if let Some(p) = &request.msgid_plural {
        body.append("Source plural:\n");
        body.append(p.as_str());
        body.append("\n");
    }
    let ghost after_plural = body@;
    if let Some(c) = &request.msgctxt {
        body.append("Context:\n");
        body.append(c.as_str());
        body.append("\n");
    }
    let ghost after_context = body@;
    if request.comments.len() > 0 {
        body.append("Comments:\n");
        append_bullets(&mut body, &request.comments);
    }
    let ghost after_comments = body@;
    if request.references.len() > 0 {
        body.append("References:\n");
        append_bullets(&mut body, &request.references);
    }
    let ghost after_references = body@;
    body.append(USER_PROMPT_TAIL);
    proof {
        let m = request@;
        assert(head =~= "Target locale: "@ + m.target_locale + "\nSource singular:\n"@ + m.msgid + "\n"@);
        assert(after_plural =~= head + match m.msgid_plural {
            Some(p) => "Source plural:\n"@ + p + "\n"@,
            None => Seq::empty(),
        });
        assert(after_context =~= after_plural + match m.msgctxt {
            Some(c) => "Context:\n"@ + c + "\n"@,
            None => Seq::empty(),
        });
        assert(after_comments =~= after_context + section(m.comments.len() > 0, "Comments:\n"@ + bullet_lines(m.comments)));
        assert(after_references =~= after_comments + section(m.references.len() > 0, "References:\n"@ + bullet_lines(m.references)));
        assert(body@ =~= user_prompt_text(m));
    }
    body
}

/// What `format!("{:?}", s)` gives for a string: `s` in double quotes,
/// with quotes, backslashes and unprintable characters escaped.
pub uninterp spec fn debug_quoted(s: Seq<char>) -> Seq<char>;

/// A string as its `Debug` form (`format!("{:?}", s)`). The contract claims
/// only that the result is the named function of the text.
#[verifier::external_body]
fn debug_text(s: &str) -> (r: String)
    ensures
        r@ == debug_quoted(s@),
{
    format!("{:?}", s)
}

/// The items joined with `sep` between them (`join`).
pub open spec fn joined(items: Seq<Seq<char>>, sep: Seq<char>) -> Seq<char>
    decreases items.len(),
{
    if items.len() == 0 {
        Seq::empty()
    } else if items.len() == 1 {
        items[0]
    } else {
        joined(items.drop_last(), sep) + sep + items.last()
    }
}

/// The items joined with `sep` between them.
pub fn join_texts(items: &Vec<String>, sep: &str) -> (r: String)
    ensures
        r@ == joined(strs_view(items@), sep@),
{
    let mut r = String::new();
    let mut i: usize = 0;
    assert(strs_view(items@).take(0) =~= Seq::<Seq<char>>::empty());
    while i < items.len()
        invariant
            i <= items@.len(),
            r@ == joined(strs_view(items@).take(i as int), sep@),
        decreases items.len() - i,
    {
        let ghost before = r@;
        if i > 0 {
            r.append(sep);
        }
        r.append(items[i].as_str());
        proof {
            let t = strs_view(items@).take(i + 1);
            assert(t.drop_last() =~= strs_view(items@).take(i as int));
            assert(t.last() == items@[i as int]@);
            if i == 0 {
                assert(t.len() == 1);
                assert(r@ =~= t[0]);
            } else {
                assert(r@ =~= joined(t.drop_last(), sep@) + sep@ + t.last());
            }
        }
        i = i + 1;
    }
    assert(strs_view(items@).take(items@.len() as int) =~= strs_view(items@));
    r
}

/// The lines of the `i`-th entry of a batch prompt, numbered from 1.
pub open spec fn batch_entry_text(i: int, r: RequestModel) -> Seq<char> {
    "["@ + decimal((i + 1) as nat) + "] msgid: "@ + debug_quoted(r.msgid) + "\n"@
        + (match r.msgid_plural {
            Some(p) => "    plural: "@ + debug_quoted(p) + "\n"@,
            None => Seq::empty(),
        })
        + (match r.msgctxt {
            Some(c) => "    context: "@ + debug_quoted(c) + "\n"@,
            None => Seq::empty(),
        })
        + section(r.comments.len() > 0, "    comment: "@ + joined(r.comments, "; "@) + "\n"@)
}

/// The lines of all entries of a batch prompt.
pub open spec fn batch_entries_text(rs: Seq<RequestModel>) -> Seq<char>
    decreases rs.len(),
{
    if rs.len() == 0 {
        Seq::empty()
    } else {
        batch_entries_text(rs.drop_last()) + batch_entry_text(rs.len() - 1, rs.last())
    }
}

/// The prompt for a batch: the first entry's locale (`en` when there is
/// none), the numbered entries, and the expected reply shape.
pub open spec fn batch_prompt_text(rs: Seq<RequestModel>) -> Seq<char> {
    let locale = if rs.len() > 0 { rs[0].target_locale } else { "en"@ };
    "Target locale: "@ + locale + "\nTranslate these entries:\n\n"@ + batch_entries_text(rs)
        + "\nReturn a JSON object with a \"translations\" array of "@ + decimal(rs.len() as nat)
        + BATCH_PROMPT_TAIL@
}

fn append_batch_entry(body: &mut String, i: usize, request: &TranslationRequest)
    requires
        i < usize::MAX,
    ensures
        final(body)@ == old(body)@ + batch_entry_text(i as int, request@),
{
    let ghost start = body@;
    let n: u64 = (i + 1) as u64;
    let number = decimal_string(n);
    let quoted = debug_text(request.msgid.as_str());
    let mut head = String::from_str("[");
    head.append(number.as_str());
    head.append("] msgid: ");
    head.append(quoted.as_str());
    head.append("\n");
    assert(head@ =~= "["@ + decimal((i + 1) as nat) + "] msgid: "@ + debug_quoted(request@.msgid) + "\n"@);
    let plural = match &request.msgid_plural {
        Some(p) => String::from_str("    plural: ").concat(debug_text(p.as_str()).as_str()).concat("\n"),
        None => String::new(),
    };
    assert(plural@ == match request@.msgid_plural {
        Some(p) => "    plural: "@ + debug_quoted(p) + "\n"@,
        None => Seq::<char>::empty(),
    });
    let context = match &request.msgctxt {
        Some(c) => String::from_str("    context: ").concat(debug_text(c.as_str()).as_str()).concat("\n"),
        None => String::new(),
    };
    assert(context@ == match request@.msgctxt {
        Some(c) => "    context: "@ + debug_quoted(c) + "\n"@,
        None => Seq::<char>::empty(),
    });
    let comment = if request.comments.len() > 0 {
        String::from_str("    comment: ").concat(join_texts(&request.comments, "; ").as_str()).concat("\n")
    } else {
        String::new()
    };
    assert(comment@ == section(request@.comments.len() > 0, "    comment: "@ + joined(request@.comments, "; "@) + "\n"@));
    body.append(head.as_str());
    body.append(plural.as_str());
    body.append(context.as_str());
    body.append(comment.as_str());
    assert(body@ =~= start + (head@ + plural@ + context@ + comment@));
}

/// The prompt for a batch of entries.
pub fn batch_user_prompt(requests: &[TranslationRequest]) -> (r: String)
    ensures
        r@ == batch_prompt_text(requests_view(requests@)),
{
    let ghost rs = requests_view(requests@);
    let mut body = String::from_str("Target locale: ");
    if requests.len() > 0 {
        body.append(requests[0].target_locale.as_str());
    } else {
        body.append("en");
    }
    body.append("\nTranslate these entries:\n\n");
    let ghost head = body@;
    let mut i: usize = 0;
    assert(rs.take(0) =~= Seq::<RequestModel>::empty());
    while i < requests.len()
        invariant
            rs == requests_view(requests@),
            i <= requests@.len(),
            body@ == head + batch_entries_text(rs.take(i as int)),
        decreases requests.len() - i,
    {
        append_batch_entry(&mut body, i, &requests[i]);
        proof {
            let t = rs.take(i + 1);
            assert(t.drop_last() =~= rs.take(i as int));
            assert(t.last() == requests@[i as int]@);
            assert(body@ =~= head + batch_entries_text(t));
        }
        i = i + 1;
    }
    assert(rs.take(requests@.len() as int) =~= rs);
    let ghost entries = body@;
    let count: u64 = requests.len() as u64;
    body.append("\nReturn a JSON object with a \"translations\" array of ");
    body.append(decimal_string(count).as_str());
    body.append(BATCH_PROMPT_TAIL);
    proof {
        let locale = if rs.len() > 0 { rs[0].target_locale } else { "en"@ };
        assert(head =~= "Target locale: "@ + locale + "\nTranslate these entries:\n\n"@);
        assert(body@ =~= batch_prompt_text(rs));
    }
    body
}

} // verus!
