use solid_patterns::pipeline::chain::{ToolChain, TxTProcessor};
use solid_patterns::pipeline::content::EditorContent;
use solid_patterns::pipeline::registry::TxtProcessor;
use solid_patterns::pipeline::step::Processing;
use solid_patterns::pipeline::steps::{AppendMarker, LowerCase, SpellChecker, UpperCase};

// Steps of any type, as long as they work on the text buffer.
type TextStep = dyn Processing<Context = EditorContent>;

fn marker(text: &str) -> AppendMarker {
    AppendMarker {
        marker: text.to_string(),
    }
}

// A step written outside the library. The two functions that only contracts
// speak of are never called.
struct Exclaim;

impl Processing for Exclaim {
    type Context = EditorContent;

    fn effect(&self, _text: vstd::seq::Seq<char>) -> vstd::seq::Seq<char> {
        unreachable!()
    }

    fn label(&self) -> vstd::seq::Seq<char> {
        unreachable!()
    }

    fn name(&self) -> &str {
        "Exclaim"
    }

    fn apply(&mut self, context: &mut EditorContent) {
        context.content.push('!');
    }
}

#[test]
fn outside_step_plugs_in() {
    let mut registry: TxtProcessor<TextStep> = TxtProcessor::new();
    registry.register_processing(Box::new(UpperCase));
    registry.register_processing(Box::new(Exclaim));
    let mut context = EditorContent::new("hello");
    registry.run(&mut context);
    assert_eq!(context.content, "HELLO!");
    assert_eq!(registry.name_at(1), "Exclaim");

    let mut chain = TxTProcessor::new((Exclaim, (UpperCase, Exclaim)));
    let mut context = EditorContent::new("hello");
    chain.run(&mut context);
    assert_eq!(context.content, "HELLO!!");
}

#[test]
fn steps_run_in_declared_order() {
    let mut registry: TxtProcessor<TextStep> = TxtProcessor::new();
    registry.register_processing(Box::new(UpperCase));
    registry.register_processing(Box::new(marker("X")));
    let mut context = EditorContent::new("hello");
    registry.run(&mut context);
    assert_eq!(context.content, "HELLOX");

    let mut chain = TxTProcessor::new((UpperCase, marker("X")));
    let mut context = EditorContent::new("hello");
    chain.run(&mut context);
    assert_eq!(context.content, "HELLOX");
}

#[test]
fn other_order_gives_other_text() {
    let mut chain = TxTProcessor::new((marker("x"), UpperCase));
    let mut context = EditorContent::new("hello");
    chain.run(&mut context);
    assert_eq!(context.content, "HELLOX");

    let mut chain = TxTProcessor::new((UpperCase, marker("x")));
    let mut context = EditorContent::new("hello");
    chain.run(&mut context);
    assert_eq!(context.content, "HELLOx");
}

#[test]
fn run_equals_steps_applied_by_hand() {
    let mut by_hand = EditorContent::new("Hello World");
    Processing::apply(&mut LowerCase, &mut by_hand);
    Processing::apply(&mut SpellChecker, &mut by_hand);
    Processing::apply(&mut marker("!"), &mut by_hand);

    let mut registry: TxtProcessor<TextStep> = TxtProcessor::new();
    registry.register_processing(Box::new(LowerCase));
    registry.register_processing(Box::new(SpellChecker));
    registry.register_processing(Box::new(marker("!")));
    let mut context = EditorContent::new("Hello World");
    registry.run(&mut context);

    assert_eq!(context.content, by_hand.content);
    assert_eq!(
        context.content,
        "hello world\n[LowerCase OK]\n[SpellChecker OK]!"
    );
}

#[test]
fn static_and_dynamic_composition_agree() {
    let start = "Some TEXT";
    let mut chain = TxTProcessor::new((LowerCase, (SpellChecker, marker("#"))));
    let mut left = EditorContent::new(start);
    chain.run(&mut left);

    let mut registry: TxtProcessor<TextStep> = TxtProcessor::new();
    registry.register_processing(Box::new(LowerCase));
    registry.register_processing(Box::new(SpellChecker));
    registry.register_processing(Box::new(marker("#")));
    let mut right = EditorContent::new(start);
    registry.run(&mut right);

    assert_eq!(left.content, right.content);
    assert_eq!(left.content, "some text\n[LowerCase OK]\n[SpellChecker OK]#");
}

#[test]
fn construction_leaves_a_context_alone() {
    let context = EditorContent::new("untouched");
    let mut registry: TxtProcessor<TextStep> = TxtProcessor::new();
    registry.register_processing(Box::new(LowerCase));
    registry.register_processing(Box::new(SpellChecker));
    registry.register_processing(Box::new(UpperCase));
    let _chain = TxTProcessor::new((LowerCase, SpellChecker));
    assert_eq!(registry.len(), 3);
    assert_eq!(context.content, "untouched");
}

#[test]
fn empty_registry_is_a_no_op() {
    let mut registry: TxtProcessor<TextStep> = TxtProcessor::new();
    assert_eq!(registry.len(), 0);
    let mut context = EditorContent::new("as it was");
    registry.run(&mut context);
    assert_eq!(context.content, "as it was");
}

#[test]
fn repeated_runs_are_independent() {
    let mut registry: TxtProcessor<TextStep> = TxtProcessor::new();
    registry.register_processing(Box::new(LowerCase));
    registry.register_processing(Box::new(marker("+")));
    let mut first = EditorContent::new("Twice");
    let mut second = EditorContent::new("Twice");
    registry.run(&mut first);
    registry.run(&mut second);
    assert_eq!(first.content, second.content);
    assert_eq!(first.content, "twice\n[LowerCase OK]+");

    let mut chain = TxTProcessor::new((LowerCase, marker("+")));
    let mut first = EditorContent::new("Twice");
    let mut second = EditorContent::new("Twice");
    chain.run(&mut first);
    chain.run(&mut second);
    assert_eq!(first.content, second.content);
}

#[test]
fn running_again_on_the_same_context_accumulates() {
    let mut chain = TxTProcessor::new(SpellChecker);
    let mut context = EditorContent::new("a");
    chain.run(&mut context);
    chain.run(&mut context);
    assert_eq!(context.content, "a\n[SpellChecker OK]\n[SpellChecker OK]");
}

#[test]
fn single_step_is_a_chain() {
    let mut step = SpellChecker;
    let mut context = EditorContent::new("HELLO WORLD");
    ToolChain::apply(&mut step, &mut context);
    assert_eq!(context.content, "HELLO WORLD\n[SpellChecker OK]");
}

#[test]
fn hello_world_demonstration() {
    let mut processor = TxTProcessor::new((LowerCase, SpellChecker));
    let mut context = EditorContent::new("HELLO WORLD");
    processor.run(&mut context);
    assert_eq!(
        context.content,
        "hello world\n[LowerCase OK]\n[SpellChecker OK]"
    );
}

#[test]
fn lower_case_changes_the_text() {
    let mut context = EditorContent::new("ÀB c");
    Processing::apply(&mut LowerCase, &mut context);
    assert_eq!(context.content, "àb c\n[LowerCase OK]");
    let mut context = EditorContent::new("straße");
    Processing::apply(&mut UpperCase, &mut context);
    assert_eq!(context.content, "STRASSE");
}

#[test]
fn names_are_stable_and_in_registration_order() {
    let mut registry: TxtProcessor<TextStep> = TxtProcessor::new();
    registry.register_processing(Box::new(LowerCase));
    registry.register_processing(Box::new(SpellChecker));
    assert_eq!(registry.name_at(0), "LowerCase");
    assert_eq!(registry.name_at(1), "SpellChecker");
    let mut context = EditorContent::new("x");
    registry.run(&mut context);
    assert_eq!(registry.name_at(0), "LowerCase");
    assert_eq!(registry.name_at(1), "SpellChecker");
    assert_eq!(UpperCase.name(), "UpperCase");
    assert_eq!(marker("m").name(), "AppendMarker");
}

#[test]
fn rewrite_replaces_the_buffer() {
    let mut context = EditorContent::new("old");
    context.rewrite("new".to_string(), "!");
    assert_eq!(context.content, "new!");
}

#[test]
fn one_registry_of_one_step_type() {
    let mut registry: TxtProcessor<SpellChecker> = TxtProcessor::new();
    registry.register_processing(Box::new(SpellChecker));
    registry.register_processing(Box::new(SpellChecker));
    let mut context = EditorContent::new("");
    registry.run(&mut context);
    assert_eq!(context.content, "\n[SpellChecker OK]\n[SpellChecker OK]");
}

// A context that is no text: a tally of points and of the steps that ran.
struct Score {
    points: u64,
    steps: u32,
}

impl vstd::view::View for Score {
    type V = (u64, u32);

    fn view(&self) -> (u64, u32) {
        unreachable!()
    }
}

struct Add(u64);

struct Double;

impl Processing for Add {
    type Context = Score;

    fn effect(&self, _before: (u64, u32)) -> (u64, u32) {
        unreachable!()
    }

    fn label(&self) -> vstd::seq::Seq<char> {
        unreachable!()
    }

    fn name(&self) -> &str {
        "Add"
    }

    fn apply(&mut self, context: &mut Score) {
        context.points += self.0;
        context.steps += 1;
    }
}

impl Processing for Double {
    type Context = Score;

    fn effect(&self, _before: (u64, u32)) -> (u64, u32) {
        unreachable!()
    }

    fn label(&self) -> vstd::seq::Seq<char> {
        unreachable!()
    }

    fn name(&self) -> &str {
        "Double"
    }

    fn apply(&mut self, context: &mut Score) {
        context.points *= 2;
        context.steps += 1;
    }
}

#[test]
fn the_context_can_be_any_record() {
    let mut chain = TxTProcessor::new((Add(3), (Double, Add(1))));
    let mut score = Score {
        points: 1,
        steps: 0,
    };
    chain.run(&mut score);
    assert_eq!(score.points, 9);
    assert_eq!(score.steps, 3);

    let mut registry: TxtProcessor<dyn Processing<Context = Score>> = TxtProcessor::new();
    registry.register_processing(Box::new(Add(3)));
    registry.register_processing(Box::new(Double));
    registry.register_processing(Box::new(Add(1)));
    let mut other = Score {
        points: 1,
        steps: 0,
    };
    registry.run(&mut other);
    assert_eq!(other.points, 9);
    assert_eq!(other.steps, 3);

    let mut swapped = TxTProcessor::new((Double, (Add(3), Add(1))));
    let mut third = Score {
        points: 1,
        steps: 0,
    };
    swapped.run(&mut third);
    assert_eq!(third.points, 6);
}
