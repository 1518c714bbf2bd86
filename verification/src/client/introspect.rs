//! The text report of what the MCP server offers: its tools, with their
//! descriptions and schemas, and its prompts.
//!
//! The driver lists the tools and prompts and hands over each schema as its
//! pretty-printed text; this module writes the report.

use vstd::prelude::*;
use vstd::string::StringExecFns;

use crate::text::{append_decimal, decimal_text};

verus! {

/// A tool of the MCP server, as the report shows it.
#[derive(Debug, Clone)]
pub struct ToolListing {
    pub name: String,
    pub description: Option<String>,
    /// The pretty-printed input schema.
    pub input_schema: String,
    /// The pretty-printed output schema.
    pub output_schema: String,
}

/// The report's entry for one tool: its name and description (empty when it
/// has none), then its input and output schemas, then an empty line.
pub open spec fn tool_entry_text(t: ToolListing) -> Seq<char> {
    let description = match t.description {
        Some(d) => d@,
        None => Seq::<char>::empty(),
    };
    "- "@ + t.name@ + " ("@ + description + ")\n"@ + t.input_schema@ + "\n"@
        + t.output_schema@ + "\n\n"@
}

/// The entries of the tools, in order.
pub open spec fn tool_entries_text(ts: Seq<ToolListing>) -> Seq<char>
    decreases ts.len(),
{
    if ts.len() == 0 {
        Seq::empty()
    } else {
        tool_entries_text(ts.drop_last()) + tool_entry_text(ts.last())
    }
}

/// The entries of the prompts, one line each, in order.
pub open spec fn prompt_entries_text(ps: Seq<String>) -> Seq<char>
    decreases ps.len(),
{
    if ps.len() == 0 {
        Seq::empty()
    } else {
        prompt_entries_text(ps.drop_last()) + "- "@ + ps.last()@ + "\n"@
    }
}

/// The tools section: the count and the entries, or the error of listing
/// them.
pub open spec fn tools_section(tools: Result<Seq<ToolListing>, Seq<char>>) -> Seq<char> {
    "Fetching available tools from server...\n"@ + match tools {
        Ok(ts) => "Available tools: "@ + decimal_text(ts.len()) + "\n"@ + tool_entries_text(ts),
        Err(e) => "Error fetching tools: "@ + e + "\n"@,
    }
}

/// The prompts section: the count and the names, or the error of listing
/// them.
pub open spec fn prompts_section(prompts: Result<Seq<String>, Seq<char>>) -> Seq<char> {
    "Fetching available prompts from server...\n"@ + match prompts {
        Ok(ps) => "Available prompts: "@ + decimal_text(ps.len()) + "\n"@ + prompt_entries_text(ps),
        Err(e) => "Error fetching prompts: "@ + e + "\n"@,
    }
}

/// The abstract value of a listing's result.
pub open spec fn listing_view<T>(r: &Result<Vec<T>, String>) -> Result<Seq<T>, Seq<char>> {
    match r {
        Ok(v) => Ok(v@),
        Err(e) => Err(e@),
    }
}

fn append_tools(out: &mut String, tools: &Vec<ToolListing>)
    ensures
        final(out)@ == old(out)@ + "Available tools: "@ + decimal_text(tools@.len()) + "\n"@
            + tool_entries_text(tools@),
{
    out.append("Available tools: ");
    append_decimal(out, tools.len() as u64);
    out.append("\n");
    let ghost head = out@;
    let n = tools.len();
    let mut i: usize = 0;
    while i < n
        invariant
            i <= n,
            n == tools@.len(),
            out@ == head + tool_entries_text(tools@.take(i as int)),
        decreases n - i,
    {
        let t = &tools[i];
        out.append("- ");
        out.append(t.name.as_str());
        out.append(" (");
        match &t.description {
            Some(d) => out.append(d.as_str()),
            None => {},
        }
        out.append(")\n");
        out.append(t.input_schema.as_str());
        out.append("\n");
        out.append(t.output_schema.as_str());
        out.append("\n\n");
        proof {
            assert(tools@.take(i + 1).drop_last() =~= tools@.take(i as int));
            assert(tools@.take(i + 1).last() == tools@[i as int]);
            assert(out@ =~= head + tool_entries_text(tools@.take(i + 1)));
        }
        i = i + 1;
    }
    proof {
        assert(tools@.take(n as int) =~= tools@);
        assert(final(out)@ =~= old(out)@ + "Available tools: "@ + decimal_text(tools@.len())
            + "\n"@ + tool_entries_text(tools@));
    }
}

fn append_prompts(out: &mut String, prompts: &Vec<String>)
    ensures
        final(out)@ == old(out)@ + "Available prompts: "@ + decimal_text(prompts@.len()) + "\n"@
            + prompt_entries_text(prompts@),
{
    out.append("Available prompts: ");
    append_decimal(out, prompts.len() as u64);
    out.append("\n");
    let ghost head = out@;
    let n = prompts.len();
    let mut i: usize = 0;
    while i < n
        invariant
            i <= n,
            n == prompts@.len(),
            out@ == head + prompt_entries_text(prompts@.take(i as int)),
        decreases n - i,
    {
        out.append("- ");
        out.append(prompts[i].as_str());
        out.append("\n");
        proof {
            assert(prompts@.take(i + 1).drop_last() =~= prompts@.take(i as int));
            assert(prompts@.take(i + 1).last() == prompts@[i as int]);
            assert(out@ =~= head + prompt_entries_text(prompts@.take(i + 1)));
        }
        i = i + 1;
    }
    proof {
        assert(prompts@.take(n as int) =~= prompts@);
        assert(final(out)@ =~= old(out)@ + "Available prompts: "@ + decimal_text(prompts@.len())
            + "\n"@ + prompt_entries_text(prompts@));
    }
}

/// The report of the server's tools and prompts: for each of the two
/// listings a heading line, then the count and the entries, or the error of
/// the listing.
pub fn introspection_text(
    tools: &Result<Vec<ToolListing>, String>,
    prompts: &Result<Vec<String>, String>,
) -> (t: String)
    ensures
        t@ == tools_section(listing_view(tools)) + prompts_section(listing_view(prompts)),
{
    let mut out = "Fetching available tools from server...\n".to_owned();
    match tools {
        Ok(ts) => append_tools(&mut out, ts),
        Err(e) => {
            out.append("Error fetching tools: ");
            out.append(e.as_str());
            out.append("\n");
        },
    }
    let ghost mid = out@;
    out.append("Fetching available prompts from server...\n");
    match prompts {
        Ok(ps) => append_prompts(&mut out, ps),
        Err(e) => {
            out.append("Error fetching prompts: ");
            out.append(e.as_str());
            out.append("\n");
        },
    }
    proof {
        assert(mid =~= tools_section(listing_view(tools)));
        assert(out@ =~= tools_section(listing_view(tools)) + prompts_section(listing_view(prompts)));
    }
    out
}

} // verus!

verus! {

/// The report line of a prompt.
spec fn prompt_line(p: String) -> Seq<char> {
    "- "@ + p@ + "\n"@
}

proof fn lemma_prompt_entries_flatten(ps: Seq<String>)
    ensures
        prompt_entries_text(ps) == ps.map_values(|p: String| prompt_line(p)).flatten_alt(),
    decreases ps.len(),
{
    if ps.len() > 0 {
        lemma_prompt_entries_flatten(ps.drop_last());
        assert(ps.map_values(|p: String| prompt_line(p)).drop_last() =~= ps.drop_last().map_values(
            |p: String| prompt_line(p),
        ));
        assert(prompt_entries_text(ps) =~= prompt_entries_text(ps.drop_last()) + prompt_line(
            ps.last(),
        ));
    }
}

proof fn lemma_tool_entries_flatten(ts: Seq<ToolListing>)
    ensures
        tool_entries_text(ts) == ts.map_values(|t: ToolListing| tool_entry_text(t)).flatten_alt(),
    decreases ts.len(),
{
    if ts.len() > 0 {
        lemma_tool_entries_flatten(ts.drop_last());
        assert(ts.map_values(|t: ToolListing| tool_entry_text(t)).drop_last()
            =~= ts.drop_last().map_values(|t: ToolListing| tool_entry_text(t)));
    }
}

/// The prompts section lists every prompt, in order, one line each, after the
/// count of prompts.
pub proof fn lemma_prompts_section_lists_every_prompt(ps: Seq<String>)
    ensures
        prompts_section(Ok(ps)) == "Fetching available prompts from server...\n"@
            + "Available prompts: "@ + decimal_text(ps.len()) + "\n"@ + ps.map_values(
            |p: String| "- "@ + p@ + "\n"@,
        ).flatten(),
{
    lemma_prompt_entries_flatten(ps);
    ps.map_values(|p: String| prompt_line(p)).lemma_flatten_and_flatten_alt_are_equivalent();
    assert(ps.map_values(|p: String| prompt_line(p)) =~= ps.map_values(
        |p: String| "- "@ + p@ + "\n"@,
    ));
}

/// The tools section lists every tool, in order, after the count of tools:
/// its name and description (empty when it has none), its input and output
/// schemas, and an empty line.
pub proof fn lemma_tools_section_lists_every_tool(ts: Seq<ToolListing>)
    ensures
        tools_section(Ok(ts)) == "Fetching available tools from server...\n"@
            + "Available tools: "@ + decimal_text(ts.len()) + "\n"@ + ts.map_values(
            |t: ToolListing|
                "- "@ + t.name@ + " ("@ + match t.description {
                    Some(d) => d@,
                    None => Seq::<char>::empty(),
                } + ")\n"@ + t.input_schema@ + "\n"@ + t.output_schema@ + "\n\n"@,
        ).flatten(),
{
    lemma_tool_entries_flatten(ts);
    ts.map_values(|t: ToolListing| tool_entry_text(t)).lemma_flatten_and_flatten_alt_are_equivalent();
    assert(ts.map_values(|t: ToolListing| tool_entry_text(t)) =~= ts.map_values(
        |t: ToolListing|
            "- "@ + t.name@ + " ("@ + match t.description {
                Some(d) => d@,
                None => Seq::<char>::empty(),
            } + ")\n"@ + t.input_schema@ + "\n"@ + t.output_schema@ + "\n\n"@,
    ));
}

/// A listing that failed is reported by its error text.
pub proof fn lemma_listing_errors_reported(e: Seq<char>)
    ensures
        tools_section(Err(e)) == "Fetching available tools from server...\n"@
            + "Error fetching tools: "@ + e + "\n"@,
        prompts_section(Err(e)) == "Fetching available prompts from server...\n"@
            + "Error fetching prompts: "@ + e + "\n"@,
{
}

} // verus!
