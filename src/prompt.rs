use vstd::prelude::*;
use crate::graph::views;
use crate::text::{decimal, decimal_of, quoted_list, quoted_list_of};

verus! {

pub const KEYWORD_PERSONA_HEAD: &'static str = "<persona>\nYou are an expert in curriculum design and knowledge architecture. Your task is to generate keywords for a knowledge map to help a user learn a topic systematically.\nYou will be given a 'topic', its hierarchical 'topicPath', existing 'children' (if any), a list of 'existingSiblings' to avoid, ";

pub const KEYWORD_PERSONA_TAIL: &'static str = ", and relevant document context from the user's knowledge base.\n</persona>\n";

pub const AUTOMATIC_COUNT_PHRASE: &'static str = "you should determine the optimal number of keywords (maximum 15)";

pub const GIVEN_COUNT_PHRASE: &'static str = "the desired 'nodeCount'";

pub const KEYWORD_TASK: &'static str = "<task-description>\n  Your generated keywords MUST follow these rules:\n  <hierarchical-specificity>\n    The specificity of your keywords must adapt to the depth of the 'topicPath'.\n    * Shallow Path (1-2 levels deep): Generate broader, foundational sub-topics.\n    * Deep Path (3+ levels deep): Generate more specific, niche concepts, applications, or tools.  \n  </hierarchical-specificity>\n  <content-rich-mix>\n    Provide a mix of core concepts, practical applications, and emerging trends.\n    \n  </content-rich-mix>\n  <avoid-redundancy>\n    Do not repeat the 'topic' itself, any keywords from the 'existingSiblings' list, or any existing 'children'.\n  </avoid-redundancy>\n  <children-awareness>\n    If the topic already has children, consider the gaps or complementary areas that haven't been covered yet.\n  </children-awareness>\n  ";

pub const AUTOMATIC_COUNT_RULES: &'static str = "<automatic-count>\n    Since this is automatic mode, determine the optimal number of keywords based on:\n    * Topic complexity and breadth\n    * Depth in the learning hierarchy\n    * Existing siblings count\n    * Available document context richness\n    * Generate between 3-15 keywords as appropriate, prioritizing quality over quantity\n  </automatic-count>";

pub const KEYWORD_TASK_END: &'static str = "\n</task-description>\n";

pub const SYSTEM_OPEN: &'static str = "<system-instruction>\n";

pub const SYSTEM_CLOSE: &'static str = "\n</system-instruction>";

pub const AUTOMATIC_MODE_LINE: &'static str = "- Mode: Automatic (generate an optimal number of keywords, maximum 15, based on the topic complexity, depth, and available context)";

pub const NODE_COUNT_LABEL: &'static str = "- Node Count: ";

pub const NO_DOCUMENTS_LINE: &'static str = "- Available Context: No document chunks found for this topic";

/// The canvas instruction wrapped in its tags; nothing when it is empty.
pub open spec fn system_section(instruction: Seq<char>) -> Seq<char> {
    if instruction.len() == 0 {
        Seq::empty()
    } else {
        SYSTEM_OPEN@ + instruction + SYSTEM_CLOSE@
    }
}

/// Rules for the model that proposes child topics.
pub open spec fn keyword_instructions(instruction: Seq<char>, automatic: bool) -> Seq<char> {
    KEYWORD_PERSONA_HEAD@ + (if automatic { AUTOMATIC_COUNT_PHRASE@ } else { GIVEN_COUNT_PHRASE@ })
        + KEYWORD_PERSONA_TAIL@ + system_section(instruction) + "\n\n"@ + KEYWORD_TASK@
        + (if automatic { AUTOMATIC_COUNT_RULES@ } else { Seq::empty() }) + KEYWORD_TASK_END@
}

/// The line that names the children; nothing when there are none.
pub open spec fn children_line(children: Seq<Seq<char>>) -> Seq<char> {
    if children.len() == 0 {
        Seq::empty()
    } else {
        "- Children: ["@ + quoted_list(children) + "]\n"@
    }
}

/// The hierarchy context handed to the model with the rules.
pub open spec fn keyword_input(
    topic: Seq<char>,
    path: Seq<Seq<char>>,
    children: Seq<Seq<char>>,
    siblings: Seq<Seq<char>>,
    automatic: bool,
    count: int,
) -> Seq<char> {
    "- Topic: \""@ + topic + "\"\n- Topic Path: ["@ + quoted_list(path) + "]\n"@ + children_line(children)
        + "- Existing Siblings: ["@ + quoted_list(siblings) + "]\n"@ + (if automatic {
        AUTOMATIC_MODE_LINE@
    } else {
        NODE_COUNT_LABEL@ + decimal(count)
    }) + "\n"@ + NO_DOCUMENTS_LINE@
}

/// The canvas instruction wrapped in its tags; nothing when it is empty.
pub fn system_section_of(instruction: &String) -> (r: String)
    ensures
        r@ == system_section(instruction@),
{
    if instruction.as_str().is_empty() {
        String::new()
    } else {
        let mut r = String::from_str(SYSTEM_OPEN);
        r.append(instruction.as_str());
        r.append(SYSTEM_CLOSE);
        r
    }
}

/// Rules for the model that proposes child topics.
pub fn compose_keyword_instructions(instruction: &String, automatic: bool) -> (r: String)
    ensures
        r@ == keyword_instructions(instruction@, automatic),
{
    let mut r = String::from_str(KEYWORD_PERSONA_HEAD);
    if automatic {
        r.append(AUTOMATIC_COUNT_PHRASE);
    } else {
        r.append(GIVEN_COUNT_PHRASE);
    }
    r.append(KEYWORD_PERSONA_TAIL);
    let sys = system_section_of(instruction);
    r.append(sys.as_str());
    r.append("\n\n");
    r.append(KEYWORD_TASK);
    if automatic {
        r.append(AUTOMATIC_COUNT_RULES);
    }
    r.append(KEYWORD_TASK_END);
    proof {
        if !automatic {
            assert(r@ =~= keyword_instructions(instruction@, automatic));
        }
    }
    r
}

/// The hierarchy context handed to the model with the rules.
pub fn compose_keyword_input(
    topic: &String,
    path: &Vec<String>,
    children: &Vec<String>,
    siblings: &Vec<String>,
    automatic: bool,
    count: i32,
) -> (r: String)
    ensures
        r@ == keyword_input(topic@, views(path@), views(children@), views(siblings@), automatic, count as int),
{
    let mut r = String::from_str("- Topic: \"");
    r.append(topic.as_str());
    r.append("\"\n- Topic Path: [");
    let p = quoted_list_of(path);
    r.append(p.as_str());
    r.append("]\n");
    if children.len() > 0 {
        r.append("- Children: [");
        let c = quoted_list_of(children);
        r.append(c.as_str());
        r.append("]\n");
    }
    r.append("- Existing Siblings: [");
    let s = quoted_list_of(siblings);
    r.append(s.as_str());
    r.append("]\n");
    if automatic {
        r.append(AUTOMATIC_MODE_LINE);
    } else {
        r.append(NODE_COUNT_LABEL);
        let d = decimal_of(count as i64);
        r.append(d.as_str());
    }
    r.append("\n");
    r.append(NO_DOCUMENTS_LINE);
    proof {
        assert(children@.len() == views(children@).len());
        assert(r@ =~= keyword_input(topic@, views(path@), views(children@), views(siblings@), automatic, count as int));
    }
    r
}

} // verus!
