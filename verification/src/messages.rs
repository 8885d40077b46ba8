use vstd::prelude::*;
use vstd::string::StringExecFns;

use crate::strutil::spec_repeat_char;

verus! {

/// Messages provides a centralized location for all user-facing messages.
pub struct Messages;

impl Messages {
    /// Returns the starting adventure message.
    pub fn starting_adventure() -> (r: String)
        ensures
            r@ == "🌳 Starting the tree adventure..."@,
    {
        String::from_str("🌳 Starting the tree adventure...")
    }

    /// Returns the scanning files message.
    pub fn scanning_files() -> (r: String)
        ensures
            r@ == "🔍 Scanning files"@,
    {
        String::from_str("🔍 Scanning files")
    }

    /// Returns the traversing tree message.
    pub fn traversing_tree() -> (r: String)
        ensures
            r@ == "Traversing directory tree"@,
    {
        String::from_str("Traversing directory tree")
    }

    /// Returns the gathering leaves success message.
    pub fn gathering_leaves() -> (r: String)
        ensures
            r@ == "🎉 Successfully gathered all the leaves!"@,
    {
        String::from_str("🎉 Successfully gathered all the leaves!")
    }

    /// Returns the copying to clipboard message.
    pub fn copying_clipboard() -> (r: String)
        ensures
            r@ == "Copying to clipboard"@,
    {
        String::from_str("Copying to clipboard")
    }

    /// Returns the clipboard ready message.
    pub fn clipboard_ready() -> (r: String)
        ensures
            r@ == "📋 Clipboard updated! Ready to paste anywhere~"@,
    {
        String::from_str("📋 Clipboard updated! Ready to paste anywhere~")
    }

    /// Returns the clipboard skipped message.
    pub fn clipboard_skipped() -> (r: String)
        ensures
            r@ == "😴 Clipboard nap time - skipping copy"@,
    {
        String::from_str("😴 Clipboard nap time - skipping copy")
    }

    /// Returns the opening editor message.
    pub fn opening_editor() -> (r: String)
        ensures
            r@ == "✏️  Opening your treasure chest..."@,
    {
        String::from_str("✏️  Opening your treasure chest...")
    }

    /// Returns the editor opened message.
    pub fn editor_opened() -> (r: String)
        ensures
            r@ == "👀 Hope you like what you see!"@,
    {
        String::from_str("👀 Hope you like what you see!")
    }

    /// Returns the cleaning up message.
    pub fn cleaning_up() -> (r: String)
        ensures
            r@ == "🗑️  Cleaning up after the party..."@,
    {
        String::from_str("🗑️  Cleaning up after the party...")
    }

    /// Returns the cleaned up message.
    pub fn cleaned_up() -> (r: String)
        ensures
            r@ == "✨ All cleaned up! No traces left behind~"@,
    {
        String::from_str("✨ All cleaned up! No traces left behind~")
    }

    /// Returns the showing stats message.
    pub fn showing_stats() -> (r: String)
        ensures
            r@ == "📊 Let's see what we've collected!"@,
    {
        String::from_str("📊 Let's see what we've collected!")
    }

    /// Returns the ready to launch message.
    pub fn ready_to_launch() -> (r: String)
        ensures
            r@ == "\n🚀 Ready to launch!\n"@ + spec_repeat_char('─', 55),
    {
        let mut s = String::from_str("\n🚀 Ready to launch!\n");
        let line = crate::strutil::repeat_char('─', 55);
        s.append(line.as_str());
        s
    }

    /// Returns a formatted message for finding an ignore file.
    pub fn found_ignore_file(path: &str) -> (r: String)
        ensures
            r@ == "  🔍 Found ignore file:   "@ + path@,
    {
        let mut s = String::from_str("  🔍 Found ignore file:   ");
        s.append(path);
        s
    }

    /// Returns the applying ignore rules message.
    pub fn applying_ignore_rules() -> (r: String)
        ensures
            r@ == "  📝 Applying rules from .treeclipignore"@,
    {
        String::from_str("  📝 Applying rules from .treeclipignore")
    }
}

} // verus!
