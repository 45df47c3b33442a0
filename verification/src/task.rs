//! Tasks, the languages they may name, and what is derived from a task
//! alone: the artifact's file name and the first candidate source.

use crate::text::{replace_spaces, same_text, underscored};
use vstd::prelude::*;
use vstd::string::StringExecFns;

verus! {

/// What the agent is asked to do: a goal, to be met in a language.
#[derive(Debug)]
pub struct Task {
    pub language: String,
    pub goal: String,
}

/// A task as plain text.
pub ghost struct TaskView {
    pub language: Seq<char>,
    pub goal: Seq<char>,
}

impl View for Task {
    type V = TaskView;

    open spec fn view(&self) -> TaskView {
        TaskView { language: self.language@, goal: self.goal@ }
    }
}

/// The languages for which a toolchain is known, and one variant for every
/// other name.
#[derive(Clone, Copy, Debug, PartialEq, Eq, Structural)]
pub enum Language {
    Rust,
    Python,
    Cpp,
    Java,
    Unsupported,
}

/// The language that a name stands for. Names are matched exactly.
pub open spec fn language_of(name: Seq<char>) -> Language {
    if name == "rust"@ {
        Language::Rust
    } else if name == "python"@ {
        Language::Python
    } else if name == "cpp"@ {
        Language::Cpp
    } else if name == "java"@ {
        Language::Java
    } else {
        Language::Unsupported
    }
}

/// The extension of source files in a language.
pub open spec fn extension_of(language: Language) -> Seq<char> {
    match language {
        Language::Rust => "rs"@,
        Language::Python => "py"@,
        Language::Cpp => "cpp"@,
        Language::Java => "java"@,
        Language::Unsupported => "txt"@,
    }
}

/// The name shared by all artifacts of a goal: the goal with underscores
/// for spaces, behind a fixed prefix.
pub open spec fn artifact_stem(goal: Seq<char>) -> Seq<char> {
    "project_"@ + underscored(goal)
}

/// The file name of a task's source artifact.
pub open spec fn file_name(task: TaskView) -> Seq<char> {
    artifact_stem(task.goal) + "."@ + extension_of(language_of(task.language))
}

/// What precedes the goal in the first candidate source of a language.
pub open spec fn template_head(language: Language) -> Seq<char> {
    match language {
        Language::Rust => "fn main() { println!(\"AIPA: "@,
        Language::Python => "print('AIPA: "@,
        Language::Cpp => "#include <iostream>\nint main() {\n    std::cout << \"AIPA: "@,
        Language::Java => "public class project_print_hello {\n    public static void main(String[] args) {\n        System.out.println(\"AIPA: "@,
        Language::Unsupported => "# Unsupported language: "@,
    }
}

/// What follows the goal in the first candidate source of a language.
pub open spec fn template_tail(language: Language) -> Seq<char> {
    match language {
        Language::Rust => " completed\"); }"@,
        Language::Python => " completed')"@,
        Language::Cpp => " completed\" << std::endl;\n    return 0;\n}"@,
        Language::Java => " completed\");\n    }\n}"@,
        Language::Unsupported => ""@,
    }
}

/// The first candidate source of a task: a program that announces the goal
/// as completed or, where the language is not supported, one line that
/// says so and names the language.
pub open spec fn generated_source(task: TaskView) -> Seq<char> {
    let language = language_of(task.language);
    if language == Language::Unsupported {
        template_head(language) + task.language
    } else {
        template_head(language) + task.goal + template_tail(language)
    }
}

impl Language {
    /// The language that `name` stands for.
    pub fn of(name: &str) -> (language: Language)
        ensures
            language == language_of(name@),
    {
        if same_text(name, "rust") {
            Language::Rust
        } else if same_text(name, "python") {
            Language::Python
        } else if same_text(name, "cpp") {
            Language::Cpp
        } else if same_text(name, "java") {
            Language::Java
        } else {
            Language::Unsupported
        }
    }

    /// What precedes the goal in the first candidate source.
    pub fn template_head(self) -> (head: &'static str)
        ensures
            head@ == template_head(self),
    {
        match self {
            Language::Rust => "fn main() { println!(\"AIPA: ",
            Language::Python => "print('AIPA: ",
            Language::Cpp => "#include <iostream>\nint main() {\n    std::cout << \"AIPA: ",
            Language::Java => "public class project_print_hello {\n    public static void main(String[] args) {\n        System.out.println(\"AIPA: ",
            Language::Unsupported => "# Unsupported language: ",
        }
    }

    /// What follows the goal in the first candidate source.
    pub fn template_tail(self) -> (tail: &'static str)
        ensures
            tail@ == template_tail(self),
    {
        match self {
            Language::Rust => " completed\"); }",
            Language::Python => " completed')",
            Language::Cpp => " completed\" << std::endl;\n    return 0;\n}",
            Language::Java => " completed\");\n    }\n}",
            Language::Unsupported => "",
        }
    }

    /// The extension of source files in this language.
    pub fn extension(self) -> (ext: &'static str)
        ensures
            ext@ == extension_of(self),
    {
        match self {
            Language::Rust => "rs",
            Language::Python => "py",
            Language::Cpp => "cpp",
            Language::Java => "java",
            Language::Unsupported => "txt",
        }
    }
}

impl Task {
    pub fn new(language: String, goal: String) -> (task: Task)
        ensures
            task@ == (TaskView { language: language@, goal: goal@ }),
    {
        Task { language, goal }
    }

    /// The name that all artifacts of the task share.
    pub fn stem(&self) -> (name: String)
        ensures
            name@ == artifact_stem(self@.goal),
    {
        let mut name = String::from_str("project_");
        let slug = replace_spaces(self.goal.as_str());
        name.append(slug.as_str());
        name
    }
}

/// The agent: where it keeps its artifacts, and whether it reports what
/// it does.
#[derive(Debug)]
pub struct AIPA {
    pub project_dir: String,
    pub debug: bool,
}

/// An agent as plain values.
pub ghost struct AipaView {
    pub project_dir: Seq<char>,
    pub debug: bool,
}

impl View for AIPA {
    type V = AipaView;

    open spec fn view(&self) -> AipaView {
        AipaView { project_dir: self.project_dir@, debug: self.debug }
    }
}

impl AIPA {
    /// The first candidate source for `task`.
    pub fn generate_code(&self, task: &Task) -> (code: String)
        ensures
            code@ == generated_source(task@),
    {
        let language = Language::of(task.language.as_str());
        let mut code = String::from_str(language.template_head());
        match language {
            Language::Unsupported => {
                code.append(task.language.as_str());
            },
            _ => {
                code.append(task.goal.as_str());
                code.append(language.template_tail());
            },
        }
        code
    }

    /// The file name of the source artifact of `task`.
    pub fn get_filename(&self, task: &Task) -> (name: String)
        ensures
            name@ == file_name(task@),
    {
        let language = Language::of(task.language.as_str());
        let mut name = task.stem();
        name.append(".");
        name.append(language.extension());
        name
    }
}

/// Tasks that read the same get the same file name and the same first
/// candidate, whatever agent is asked and however often.
pub proof fn lemma_same_task_same_artifact(a: Task, b: Task)
    requires
        a@ == b@,
    ensures
        file_name(a@) == file_name(b@),
        generated_source(a@) == generated_source(b@),
{
}

} // verus!
