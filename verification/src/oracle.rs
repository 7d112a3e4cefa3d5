//! The oracles of the bot: the daily fortune of a user, and answers to
//! questions.
use vstd::prelude::*;
use std::hash::Hasher;
use vstd::std_specs::hash::DefaultHasherAdditionalSpecFns;
use crate::ext_hash::{
    hasher_write_i32, hasher_write_i64, hasher_write_u64, lemma_ne_bytes_injective, ne_bytes_i32, ne_bytes_i64, ne_bytes_u64,
};
use crate::ext_rand::{choose_from, small_rng_from_seed};

verus! {

/// The fortunes, all positive or at least neutral.
pub open spec fn fortune_list() -> Seq<&'static str> {
    seq![
        "😄 Oggi sarà una fantastica giornata!",
        "😌 Oggi sarà una giornata molto chill e rilassante.",
        "💰 Oggi sui tuoi alberi cresceranno più Stelline!",
        "🍎 Oggi un unicorno ti lascerà la sua Blessed Apple!",
        "📈 Oggi il tuo team in ranked sarà più amichevole e competente del solito!",
        "🏝 Oggi potrai raggiungere l'Isola Miraggio!",
        "🐱 Oggi vedrai più gatti del solito su Internet!",
        "🐶 Oggi vedrai più cani del solito su Internet!",
        "🐦 Oggi vedrai più uccelli del solito su Internet!",
        "🐌 Oggi incontrerai una chiocciola sperduta!",
        "🎁 Oggi i dispenser di regali in centro funzioneranno senza problemi!",
        "🥕 Oggi il tuo raccolto avrà qualità Iridium Star!",
        "🔴 Oggi troverai più oggetti di rarità rossa del solito!",
        "✨ Oggi farai molti più multicast!",
        "♦️ Oggi troverai una Leggendaria Dorata!",
        "⭐️ Oggi la stella della RYG ti sembrerà un pochino più dritta!",
        "⭐️ Oggi la stella della RYG ti sembrerà anche più storta del solito!",
        "💎 Oggi i tuoi avversari non riusciranno a deflettere i tuoi Emerald Splash!",
        "⬅️ Oggi le tue supercazzole prematureranno un po' più a sinistra!",
        "➡️ Oggi le tue supercazzole prematureranno un po' più a destra!",
        "🌅 Oggi sarà il giorno dopo ieri e il giorno prima di domani!",
        "🤖 Oggi il Royal Bot ti dirà qualcosa di molto utile!",
        "🏠 Oggi qualcuno si autoinviterà a casa tua!",
        "📵 Oggi passerai una bella giornata tranquilla senza che nessuno ti chiami!",
        "🕸 Oggi cadrai trappola di una ragnatela! O ti arriverà in faccia.",
        "🔮 Oggi chiederai a @royalgamesbot di dirti la tua /fortune!",
        "👽 Oggi incontrerai gli UFI!!!1!!uno!",
        "🦾 Oggi uno scienziato pazzo ti proporrà di sostituire il tuo braccio con un braccio-razzo meccanico!",
        "🕵️ Oggi una spia in incognito ti chiederà se hai mai visto the Emoji Movie!",
        "🍕 Oggi mangerai una margherita doppio pomodoro!",
        "🍰 Oggi mangerai una torta al gusto di torta!",
        "🥇 Oggi vincerai qualcosa!",
        "🏴‍☠️ Oggi salperai i sette mari con la tua ciurma pirata!",
        "🕒 Oggi sarà ieri, e domani sarà oggi!",
        "🔙 Oggi tornerai indietro nel tempo!",
        "🚨 Oggi suonerà l'allarme della Velvet Room!",
        "🏳️‍🌈 Oggi scoprirai l'esistenza di almeno un gender che non conoscevi!",
        "🥴 Oggi ti dimenticherai come ci si siede!",
        "👀 Oggi scoprirai di avere degli occhi!",
        "🏹 Oggi ti verrà voglia di installare Arch Linux, ma cambierai idea molto in fretta!",
        "🩲 Oggi annuncerai alla cv di essere in mutande!",
        "👟 Oggi tua madre ti regalerà delle scarpe da corsa!",
        "✨ Oggi troverai un Pokémon shiny!",
        "👏 Oggi sarai felice, lo saprai e batterai le mani!",
        "🦴 Oggi scoprirai di avere uno scheletro wholesome all'interno di te!",
        "💳 Oggi riuscirai a fornire i tre numerini della tua carta di credito a John Wick!",
        "🤔 Oggi smetterai finalmente di essere sus, in quanto sarai confermato dal villaggio!",
        "🔮 Oggi pondererai intensamente la tua sfera!",
        "🗳️ Oggi ci saranno le elezioni per un nuovo partito sul tuo pianeta!",
        "🥓 Oggi avrai bacon illimitato e niente videogiochi!",
        "🎮 Oggi avrai videogiochi, videogiochi illimitati e niente videogiochi!",
        "🔫 Oggi troverai una pistola pearlescent!",
        "🤖 Oggi ti chiederanno di pilotare un robot gigante!",
        "💣 Oggi dovrai continuare a parlare, o esploderai!",
        "🤌 Oggi ti sentirai particolarmente italiano, e gesticolerai più del solito!",
        "🪵 Oggi ti servirà legname!",
        "☄️ Oggi avvisterai una cometa, rischiando di inciampare!",
        "🥅 Oggi farai goal!",
        "🧿 Oggi sarai protetto dagli spiriti maligni che attraversano le pareti!",
        "💰 Oggi è una buona giornata per il capitalismo!",
        "⚒️ Oggi è una buona giornata per il comunismo!",
        "🐰 Oggi inizia la stagione di caccia dei Big Chungus!",
        "🐸 Oggi incontrerai una rana-cavaliere!",
        "⚔️ Oggi un cyborg-samurai ti cederà la sua katana RGB!",
        "🥪 Oggi mangerai un sandvich!",
        "👻 Oggi farai amicizia con Re Boo!",
        "🫀 Oggi un necromante ti ruberà il cuore, e lo farà battere a ritmo!",
        "🦊 Oggi volerai su un Arwing in compagnia di un rinomato mercenario!",
        "🦋 Oggi una tua particolare azione avrà conseguenze, ma potrai tornare indietro nel tempo e correggerla!",
        "🐳 Oggi una balena trasporterà un container per te!",
        "🔥 Oggi sarà una giornata di fuoco!",
        "🥕 Oggi sostituirai il naso a un pupazzo di neve!",
        "🍔 Oggi mangerai il tuo cibo preferito: il sushi!",
        "🍭 Oggi un lecca-lecca ti sbloccherà poteri inimmaginabili!",
        "🧩 Oggi andrai a caccia di Jiggy!",
        "🚜 Oggi piraterai un trattore!",
        "🧭 Oggi ti perderai nei Lost Woods!",
        "⚙️ Oggi aumenterai la produzione di Iron Gear!",
        "🔫 Oggi attiverai il tuo Devil Trigger!",
        "🍺 Oggi servirai un drink con più Karmotrine!",
        "🚽 Oggi sperimenterai la leggendaria Terra Toilet!",
        "🚰 Oggi sarai più idratato del solito!",
        "🔑 Oggi troverai la chiave di tutte le porte!",
        "📎 Oggi incontrerai Clippy!",
        "🌪 Oggi un tornado girerà in senso orario!",
        "🍄 Oggi diventerai Super grazie ad un fungo!",
        "👑 Oggi preparerai la colazione per Re Artù!",
        "🍌 Oggi metterai una banana in microonde!",
        "❤️‍🔥 Oggi scapperai dal Tartaro!",
        "♻️ Oggi, riciclando della Silt, troverai un dinosauro!",
        "🏧 Oggi piazzerai un jammer su un bancomat, estraendone i contenuti!",
        "🚼 Oggi ti chiederai il significato di questa emoji!",
        "🤡 Oggi dovrai interrogare il clown di un circo!",
        "👣 Oggi riceverai un marchio che ti proteggerà dai vampiri!",
        "🎊 Oggi dalle Sfere Festa non uscirà nessuna Bob-omba!",
        "🧲 Oggi piazzerai un magnete per attirare colpi di bazooka!",
        "㊗️ Oggi qualcuno ti farà le sue congratulazioni!",
        "⚛️ Oggi sfrutterai appieno l'energia dell'atomo!",
        "🈁 Oggi ti troverai qui!",
        "💮 Oggi i tuoi esami andranno alla perfezione!",
        "☕️ Oggi berrai un espresso d-d-doppio!?",
        "🐝 Oggi farai quello che fanno le api sulle foglie!",
        "🎰 Oggi vincerai il Jackpot di Francoforte 1!",
        "🧱 Oggi rifiuterai un en passant!",
        "🪓 Oggi perderai la tua ascia, ma la riuscirai facilmente a ritrovare, in quanto starà urlando il tuo nome!",
        "🕳 Oggi cadrai in una Trappola!",
        "⛏ Oggi scaverai degli smeraldi!",
        "🩹 Oggi rigenererai tutta la tua vita con un singolo cerotto!",
        "📈 Oggi i tuoi affari andranno alla grande!",
        "📉 Oggi avrai la possibilità di comprare qualche cosa a prezzo scontato!",
        "🅱️ Oggi la seconda lettera dell'alfabeto ti porterà più fortuna del solito!",
        "🧚 Oggi ti chiederai coraggiosamente dove vola la fatina!",
        "⚔️ Oggi ridurrai dei Corpus a fettine!",
        "🕯 Oggi troverai coraggio nella luce della tua torcia!",
        "🎺 Oggi uno scheletro suonerà una trombetta!",
        "🌋 Oggi getterai un anello in un vulcano!",
        "🧶 Oggi comprerai della lana da fare l'uncinetto!",
        "🐰 Oggi un coniglio ti farà girare la sua ruota!",
        "🧛 Oggi scoprirai finalmente come fa il vampiro ancora a sopravvivere!",
        "👽 Oggi sarai scelto come comandante di una squadra per la difesa planetaria!",
        "🐝 Oggi b!",
        "🎸 Oggi le suonerai a qualcuno!",
        "🧬 Oggi la tua specie si evolverà in un altra con delle bocche sulle mani!",
        "🅰️ Oggi premerai un pulsante a metà!",
        "📻 Oggi sarà il tuo turno di usare la Boombox!",
        "🐡 Oggi riaccenderai un faro sottomarino!",
        "🎄 Oggi addobberai un albero!",
        "🪲 Oggi il tuo insetto metallico sconfiggerà i suoi nemici a suon di musica!",
        "🀄️ Oggi vincerai a Mahjong!",
        "🃏 Oggi vincerai a solitario!",
        "🛗 Oggi l'ascensore ti porterà sulla superficie di Auriga!",
        "🦷 Oggi quattro denti dorati verranno messi sulla bilancia a tuo favore!",
        "✨ Oggi riceverai una /fortune mai vista prima!",
        "🐷 Oggi riceverai una chiamata da un maialino!",
        "🎆 Oggi vedrai dei fuochi artificiali!",
        "🗽 Oggi avrai più libertà del solito!",
        "🎳 Oggi tuo cugino ti inviterà a giocare a bowling!",
        "⛎ Oggi romperai la quarta parete!",
        "🛕 Oggi raggiungerai la cima di un Pantheon!",
        "🍽 Oggi la tua fabbrica produrrà più Iron Plate del normale!",
        "🎲 Oggi tirerai iniziativa, e farai 18!",
        "💊 Oggi una pillola ti darà il potere di mangiare fantasmi!",
        "⚡️ Oggi un tuono colpirà un creeper!",
        "🎈 Oggi delle scimmie ti difenderanno da dei palloncini!",
        "⬆️ Oggi salirai di livello!",
        "🍣 Oggi il sashimi avrà un limite ragionevolmente alto!",
        "🖋 Oggi 'a penn' starà 'ngopp u' tavl!",
        "💰 Oggi il tuo username avrà un valore più alto del solito!",
        "☕️ Oggi un uomo entrerà in un caffè! (Splash.)",
        "☕️ Oggi un uomo entrerà in un caffè! (Tlink.)",
        "💥 Oggi la RYG cambierà governo!",
        "🍛 Oggi il carry farà il curry!",
        "❤️ Oggi ti sentirai pieno di DETERMINAZIONE!",
        "🔄 Oggi cambierai provincia!",
        "🎉 Oggi da qualche parte nel mondo sarà festa!",
        "➡️ Oggi, nonostante gli imprevisti, riuscirai a passare dal Via!",
        "🔎 Oggi accuserai il Professor Plum di aver commesso un omicidio in salotto con un candelabro!",
        "🔫 Oggi schiverai un BANG!",
        "🍻 Oggi una birra ti ridarà una vita!",
        "🎶 Oggi Hatsune Miku si nasconderà nella tua Wi-Fi!",
        "🚽 Oggi delle telecamere combatteranno contro dei gabinetti!",
        "🌟 Oggi verrà scoperta una galassia grande quanto qualcuno della tua famiglia!",
        "🎶 Oggi Rick non rinuncerà mai a te!",
        "🏚 Oggi ristrutturerai una villa completando dei minigiochi match-3!",
    ]
}

/// The fortunes, in order.
pub fn fortunes() -> (r: Vec<&'static str>)
    ensures
        r@ == fortune_list(),
        r@.len() == 164,
{
    vec![
        "😄 Oggi sarà una fantastica giornata!",
        "😌 Oggi sarà una giornata molto chill e rilassante.",
        "💰 Oggi sui tuoi alberi cresceranno più Stelline!",
        "🍎 Oggi un unicorno ti lascerà la sua Blessed Apple!",
        "📈 Oggi il tuo team in ranked sarà più amichevole e competente del solito!",
        "🏝 Oggi potrai raggiungere l'Isola Miraggio!",
        "🐱 Oggi vedrai più gatti del solito su Internet!",
        "🐶 Oggi vedrai più cani del solito su Internet!",
        "🐦 Oggi vedrai più uccelli del solito su Internet!",
        "🐌 Oggi incontrerai una chiocciola sperduta!",
        "🎁 Oggi i dispenser di regali in centro funzioneranno senza problemi!",
        "🥕 Oggi il tuo raccolto avrà qualità Iridium Star!",
        "🔴 Oggi troverai più oggetti di rarità rossa del solito!",
        "✨ Oggi farai molti più multicast!",
        "♦️ Oggi troverai una Leggendaria Dorata!",
        "⭐️ Oggi la stella della RYG ti sembrerà un pochino più dritta!",
        "⭐️ Oggi la stella della RYG ti sembrerà anche più storta del solito!",
        "💎 Oggi i tuoi avversari non riusciranno a deflettere i tuoi Emerald Splash!",
        "⬅️ Oggi le tue supercazzole prematureranno un po' più a sinistra!",
        "➡️ Oggi le tue supercazzole prematureranno un po' più a destra!",
        "🌅 Oggi sarà il giorno dopo ieri e il giorno prima di domani!",
        "🤖 Oggi il Royal Bot ti dirà qualcosa di molto utile!",
        "🏠 Oggi qualcuno si autoinviterà a casa tua!",
        "📵 Oggi passerai una bella giornata tranquilla senza che nessuno ti chiami!",
        "🕸 Oggi cadrai trappola di una ragnatela! O ti arriverà in faccia.",
        "🔮 Oggi chiederai a @royalgamesbot di dirti la tua /fortune!",
        "👽 Oggi incontrerai gli UFI!!!1!!uno!",
        "🦾 Oggi uno scienziato pazzo ti proporrà di sostituire il tuo braccio con un braccio-razzo meccanico!",
        "🕵️ Oggi una spia in incognito ti chiederà se hai mai visto the Emoji Movie!",
        "🍕 Oggi mangerai una margherita doppio pomodoro!",
        "🍰 Oggi mangerai una torta al gusto di torta!",
        "🥇 Oggi vincerai qualcosa!",
        "🏴‍☠️ Oggi salperai i sette mari con la tua ciurma pirata!",
        "🕒 Oggi sarà ieri, e domani sarà oggi!",
        "🔙 Oggi tornerai indietro nel tempo!",
        "🚨 Oggi suonerà l'allarme della Velvet Room!",
        "🏳️‍🌈 Oggi scoprirai l'esistenza di almeno un gender che non conoscevi!",
        "🥴 Oggi ti dimenticherai come ci si siede!",
        "👀 Oggi scoprirai di avere degli occhi!",
        "🏹 Oggi ti verrà voglia di installare Arch Linux, ma cambierai idea molto in fretta!",
        "🩲 Oggi annuncerai alla cv di essere in mutande!",
        "👟 Oggi tua madre ti regalerà delle scarpe da corsa!",
        "✨ Oggi troverai un Pokémon shiny!",
        "👏 Oggi sarai felice, lo saprai e batterai le mani!",
        "🦴 Oggi scoprirai di avere uno scheletro wholesome all'interno di te!",
        "💳 Oggi riuscirai a fornire i tre numerini della tua carta di credito a John Wick!",
        "🤔 Oggi smetterai finalmente di essere sus, in quanto sarai confermato dal villaggio!",
        "🔮 Oggi pondererai intensamente la tua sfera!",
        "🗳️ Oggi ci saranno le elezioni per un nuovo partito sul tuo pianeta!",
        "🥓 Oggi avrai bacon illimitato e niente videogiochi!",
        "🎮 Oggi avrai videogiochi, videogiochi illimitati e niente videogiochi!",
        "🔫 Oggi troverai una pistola pearlescent!",
        "🤖 Oggi ti chiederanno di pilotare un robot gigante!",
        "💣 Oggi dovrai continuare a parlare, o esploderai!",
        "🤌 Oggi ti sentirai particolarmente italiano, e gesticolerai più del solito!",
        "🪵 Oggi ti servirà legname!",
        "☄️ Oggi avvisterai una cometa, rischiando di inciampare!",
        "🥅 Oggi farai goal!",
        "🧿 Oggi sarai protetto dagli spiriti maligni che attraversano le pareti!",
        "💰 Oggi è una buona giornata per il capitalismo!",
        "⚒️ Oggi è una buona giornata per il comunismo!",
        "🐰 Oggi inizia la stagione di caccia dei Big Chungus!",
        "🐸 Oggi incontrerai una rana-cavaliere!",
        "⚔️ Oggi un cyborg-samurai ti cederà la sua katana RGB!",
        "🥪 Oggi mangerai un sandvich!",
        "👻 Oggi farai amicizia con Re Boo!",
        "🫀 Oggi un necromante ti ruberà il cuore, e lo farà battere a ritmo!",
        "🦊 Oggi volerai su un Arwing in compagnia di un rinomato mercenario!",
        "🦋 Oggi una tua particolare azione avrà conseguenze, ma potrai tornare indietro nel tempo e correggerla!",
        "🐳 Oggi una balena trasporterà un container per te!",
        "🔥 Oggi sarà una giornata di fuoco!",
        "🥕 Oggi sostituirai il naso a un pupazzo di neve!",
        "🍔 Oggi mangerai il tuo cibo preferito: il sushi!",
        "🍭 Oggi un lecca-lecca ti sbloccherà poteri inimmaginabili!",
        "🧩 Oggi andrai a caccia di Jiggy!",
        "🚜 Oggi piraterai un trattore!",
        "🧭 Oggi ti perderai nei Lost Woods!",
        "⚙️ Oggi aumenterai la produzione di Iron Gear!",
        "🔫 Oggi attiverai il tuo Devil Trigger!",
        "🍺 Oggi servirai un drink con più Karmotrine!",
        "🚽 Oggi sperimenterai la leggendaria Terra Toilet!",
        "🚰 Oggi sarai più idratato del solito!",
        "🔑 Oggi troverai la chiave di tutte le porte!",
        "📎 Oggi incontrerai Clippy!",
        "🌪 Oggi un tornado girerà in senso orario!",
        "🍄 Oggi diventerai Super grazie ad un fungo!",
        "👑 Oggi preparerai la colazione per Re Artù!",
        "🍌 Oggi metterai una banana in microonde!",
        "❤️‍🔥 Oggi scapperai dal Tartaro!",
        "♻️ Oggi, riciclando della Silt, troverai un dinosauro!",
        "🏧 Oggi piazzerai un jammer su un bancomat, estraendone i contenuti!",
        "🚼 Oggi ti chiederai il significato di questa emoji!",
        "🤡 Oggi dovrai interrogare il clown di un circo!",
        "👣 Oggi riceverai un marchio che ti proteggerà dai vampiri!",
        "🎊 Oggi dalle Sfere Festa non uscirà nessuna Bob-omba!",
        "🧲 Oggi piazzerai un magnete per attirare colpi di bazooka!",
        "㊗️ Oggi qualcuno ti farà le sue congratulazioni!",
        "⚛️ Oggi sfrutterai appieno l'energia dell'atomo!",
        "🈁 Oggi ti troverai qui!",
        "💮 Oggi i tuoi esami andranno alla perfezione!",
        "☕️ Oggi berrai un espresso d-d-doppio!?",
        "🐝 Oggi farai quello che fanno le api sulle foglie!",
        "🎰 Oggi vincerai il Jackpot di Francoforte 1!",
        "🧱 Oggi rifiuterai un en passant!",
        "🪓 Oggi perderai la tua ascia, ma la riuscirai facilmente a ritrovare, in quanto starà urlando il tuo nome!",
        "🕳 Oggi cadrai in una Trappola!",
        "⛏ Oggi scaverai degli smeraldi!",
        "🩹 Oggi rigenererai tutta la tua vita con un singolo cerotto!",
        "📈 Oggi i tuoi affari andranno alla grande!",
        "📉 Oggi avrai la possibilità di comprare qualche cosa a prezzo scontato!",
        "🅱️ Oggi la seconda lettera dell'alfabeto ti porterà più fortuna del solito!",
        "🧚 Oggi ti chiederai coraggiosamente dove vola la fatina!",
        "⚔️ Oggi ridurrai dei Corpus a fettine!",
        "🕯 Oggi troverai coraggio nella luce della tua torcia!",
        "🎺 Oggi uno scheletro suonerà una trombetta!",
        "🌋 Oggi getterai un anello in un vulcano!",
        "🧶 Oggi comprerai della lana da fare l'uncinetto!",
        "🐰 Oggi un coniglio ti farà girare la sua ruota!",
        "🧛 Oggi scoprirai finalmente come fa il vampiro ancora a sopravvivere!",
        "👽 Oggi sarai scelto come comandante di una squadra per la difesa planetaria!",
        "🐝 Oggi b!",
        "🎸 Oggi le suonerai a qualcuno!",
        "🧬 Oggi la tua specie si evolverà in un altra con delle bocche sulle mani!",
        "🅰️ Oggi premerai un pulsante a metà!",
        "📻 Oggi sarà il tuo turno di usare la Boombox!",
        "🐡 Oggi riaccenderai un faro sottomarino!",
        "🎄 Oggi addobberai un albero!",
        "🪲 Oggi il tuo insetto metallico sconfiggerà i suoi nemici a suon di musica!",
        "🀄️ Oggi vincerai a Mahjong!",
        "🃏 Oggi vincerai a solitario!",
        "🛗 Oggi l'ascensore ti porterà sulla superficie di Auriga!",
        "🦷 Oggi quattro denti dorati verranno messi sulla bilancia a tuo favore!",
        "✨ Oggi riceverai una /fortune mai vista prima!",
        "🐷 Oggi riceverai una chiamata da un maialino!",
        "🎆 Oggi vedrai dei fuochi artificiali!",
        "🗽 Oggi avrai più libertà del solito!",
        "🎳 Oggi tuo cugino ti inviterà a giocare a bowling!",
        "⛎ Oggi romperai la quarta parete!",
        "🛕 Oggi raggiungerai la cima di un Pantheon!",
        "🍽 Oggi la tua fabbrica produrrà più Iron Plate del normale!",
        "🎲 Oggi tirerai iniziativa, e farai 18!",
        "💊 Oggi una pillola ti darà il potere di mangiare fantasmi!",
        "⚡️ Oggi un tuono colpirà un creeper!",
        "🎈 Oggi delle scimmie ti difenderanno da dei palloncini!",
        "⬆️ Oggi salirai di livello!",
        "🍣 Oggi il sashimi avrà un limite ragionevolmente alto!",
        "🖋 Oggi 'a penn' starà 'ngopp u' tavl!",
        "💰 Oggi il tuo username avrà un valore più alto del solito!",
        "☕️ Oggi un uomo entrerà in un caffè! (Splash.)",
        "☕️ Oggi un uomo entrerà in un caffè! (Tlink.)",
        "💥 Oggi la RYG cambierà governo!",
        "🍛 Oggi il carry farà il curry!",
        "❤️ Oggi ti sentirai pieno di DETERMINAZIONE!",
        "🔄 Oggi cambierai provincia!",
        "🎉 Oggi da qualche parte nel mondo sarà festa!",
        "➡️ Oggi, nonostante gli imprevisti, riuscirai a passare dal Via!",
        "🔎 Oggi accuserai il Professor Plum di aver commesso un omicidio in salotto con un candelabro!",
        "🔫 Oggi schiverai un BANG!",
        "🍻 Oggi una birra ti ridarà una vita!",
        "🎶 Oggi Hatsune Miku si nasconderà nella tua Wi-Fi!",
        "🚽 Oggi delle telecamere combatteranno contro dei gabinetti!",
        "🌟 Oggi verrà scoperta una galassia grande quanto qualcuno della tua famiglia!",
        "🎶 Oggi Rick non rinuncerà mai a te!",
        "🏚 Oggi ristrutturerai una villa completando dei minigiochi match-3!",
    ]
}

/// The answers to questions: twenty yes, twenty no, twenty who knows.
pub open spec fn answer_list() -> Seq<&'static str> {
    seq![
        "🔵 Sì.",
        "🔵 Decisamente sì!",
        "🔵 Uhm, secondo me sì.",
        "🔵 Sì! Sì! SÌ!",
        "🔵 Yup.",
        "🔵 Direi proprio di sì.",
        "🔵 Assolutamente sì.",
        "🔵 Ma certo!",
        "🔵 Esatto!",
        "🔵 Senz'altro!",
        "🔵 Ovviamente.",
        "🔵 Questa domanda ha risposta affermativa.",
        "🔵 Hell yeah.",
        "🔵 YES! YES! YES!",
        "🔵 yusssssss",
        "🔵 Non vedo perchè no",
        "🔵 Ha senso, ha perfettamente senso, nulla da obiettare, ha senso.",
        "🔵 Yos!",
        "🔵 Sì, ma tienilo segreto...",
        "🔵 [RADIO] Affermativo.",
        "❌ No.",
        "❌ Decisamente no!",
        "❌ Uhm, secondo me sì. No, aspetta, ci ho ripensato. È un no.",
        "❌ No, no, e ancora NO!",
        "❌ Nope.",
        "❌ Direi proprio di no.",
        "❌ Assolutamente no.",
        "❌ Certo che no!",
        "❌ Neanche per idea!",
        "❌ Neanche per sogno!",
        "❌ Niente affatto!",
        "❌ Questa domanda ha risposta negativa.",
        "❌ Hell no.",
        "❌ NO! NO! NO!",
        "❌ lolno",
        "❌ NEIN NEIN NEIN NEIN",
        "❌ Delet dis",
        "❌ Nopety nope!",
        "❌ No, ma tienilo segreto.",
        "❌ [RADIO] Negativo.",
        "❔ Boh.",
        "❔ E io che ne so?!",
        "❔ Non so proprio rispondere.",
        "❔ Non lo so...",
        "❔ Mi avvalgo della facoltà di non rispondere.",
        "❔ Non parlerò senza il mio avvocato!",
        "❔ Dunno.",
        "❔ Perché lo chiedi a me?",
        "❔ Ah, non lo so io!",
        "❔ ¯\\_(ツ)_/¯",
        "❔ No idea.",
        "❔ Dunno.",
        "❔ Boooooh!",
        "❔ Non ne ho la più pallida idea.",
        "❔ No comment.",
        "❔ maibi",
        "❔ maibi not",
        "❔ idk dude",
        "❔ Non mi è permesso condividere questa informazione.",
        "❔ [RADIO] Mantengo la posizione.",
    ]
}

/// The answers, in order.
pub fn answers() -> (r: Vec<&'static str>)
    ensures
        r@ == answer_list(),
        r@.len() == 60,
{
    vec![
        "🔵 Sì.",
        "🔵 Decisamente sì!",
        "🔵 Uhm, secondo me sì.",
        "🔵 Sì! Sì! SÌ!",
        "🔵 Yup.",
        "🔵 Direi proprio di sì.",
        "🔵 Assolutamente sì.",
        "🔵 Ma certo!",
        "🔵 Esatto!",
        "🔵 Senz'altro!",
        "🔵 Ovviamente.",
        "🔵 Questa domanda ha risposta affermativa.",
        "🔵 Hell yeah.",
        "🔵 YES! YES! YES!",
        "🔵 yusssssss",
        "🔵 Non vedo perchè no",
        "🔵 Ha senso, ha perfettamente senso, nulla da obiettare, ha senso.",
        "🔵 Yos!",
        "🔵 Sì, ma tienilo segreto...",
        "🔵 [RADIO] Affermativo.",
        "❌ No.",
        "❌ Decisamente no!",
        "❌ Uhm, secondo me sì. No, aspetta, ci ho ripensato. È un no.",
        "❌ No, no, e ancora NO!",
        "❌ Nope.",
        "❌ Direi proprio di no.",
        "❌ Assolutamente no.",
        "❌ Certo che no!",
        "❌ Neanche per idea!",
        "❌ Neanche per sogno!",
        "❌ Niente affatto!",
        "❌ Questa domanda ha risposta negativa.",
        "❌ Hell no.",
        "❌ NO! NO! NO!",
        "❌ lolno",
        "❌ NEIN NEIN NEIN NEIN",
        "❌ Delet dis",
        "❌ Nopety nope!",
        "❌ No, ma tienilo segreto.",
        "❌ [RADIO] Negativo.",
        "❔ Boh.",
        "❔ E io che ne so?!",
        "❔ Non so proprio rispondere.",
        "❔ Non lo so...",
        "❔ Mi avvalgo della facoltà di non rispondere.",
        "❔ Non parlerò senza il mio avvocato!",
        "❔ Dunno.",
        "❔ Perché lo chiedi a me?",
        "❔ Ah, non lo so io!",
        "❔ ¯\\_(ツ)_/¯",
        "❔ No idea.",
        "❔ Dunno.",
        "❔ Boooooh!",
        "❔ Non ne ho la più pallida idea.",
        "❔ No comment.",
        "❔ maibi",
        "❔ maibi not",
        "❔ idk dude",
        "❔ Non mi è permesso condividere questa informazione.",
        "❔ [RADIO] Mantengo la posizione.",
    ]
}

/// Byte `k` (from the least significant) of `h`.
pub open spec fn le_byte(h: u64, k: int) -> u8 {
    ((h >> ((8 * k) as u64)) & 0xff) as u8
}

/// A 32-byte seed made of the eight little-endian bytes of `h`, repeated.
pub fn seed_from_hash(h: u64) -> (r: [u8; 32])
    ensures
        forall|i: int| 0 <= i < 32 ==> #[trigger] r@[i] == le_byte(h, i % 8),
{
    let b0 = (h & 0xff) as u8;
    let b1 = ((h >> 8u64) & 0xff) as u8;
    let b2 = ((h >> 16u64) & 0xff) as u8;
    let b3 = ((h >> 24u64) & 0xff) as u8;
    let b4 = ((h >> 32u64) & 0xff) as u8;
    let b5 = ((h >> 40u64) & 0xff) as u8;
    let b6 = ((h >> 48u64) & 0xff) as u8;
    let b7 = ((h >> 56u64) & 0xff) as u8;
    assert(b0 == le_byte(h, 0)) by (bit_vector)
        requires b0 == (h & 0xff) as u8;
    let r = [
        b0, b1, b2, b3, b4, b5, b6, b7,
        b0, b1, b2, b3, b4, b5, b6, b7,
        b0, b1, b2, b3, b4, b5, b6, b7,
        b0, b1, b2, b3, b4, b5, b6, b7,
    ];
    assert forall|i: int| 0 <= i < 32 implies #[trigger] r@[i] == le_byte(h, i % 8) by {
        let k = i % 8;
        assert(le_byte(h, 0) == (h & 0xff) as u8);
        assert(le_byte(h, 1) == ((h >> 8u64) & 0xff) as u8);
        assert(le_byte(h, 2) == ((h >> 16u64) & 0xff) as u8);
        assert(le_byte(h, 3) == ((h >> 24u64) & 0xff) as u8);
        assert(le_byte(h, 4) == ((h >> 32u64) & 0xff) as u8);
        assert(le_byte(h, 5) == ((h >> 40u64) & 0xff) as u8);
        assert(le_byte(h, 6) == ((h >> 48u64) & 0xff) as u8);
        assert(le_byte(h, 7) == ((h >> 56u64) & 0xff) as u8);
    }
    r
}

/// Picks one of `items` with a generator seeded by `hash`.
fn pick_with_hash(hash: u64, items: &Vec<&'static str>) -> (r: &'static str)
    requires
        items@.len() > 0,
    ensures
        items@.contains(r),
{
    let seed = seed_from_hash(hash);
    let mut rng = small_rng_from_seed(seed);
    match choose_from(&mut rng, items.as_slice()) {
        Some(x) => *x,
        None => items[0],
    }
}

/// What the hash of a fortune is computed from: the bytes of the day, then
/// those of the user.
pub open spec fn fortune_hash_input(days: i32, user_id: u64) -> Seq<Seq<u8>> {
    seq![ne_bytes_i32(days), ne_bytes_u64(user_id)]
}

/// What the hash of an answer is computed from: the bytes of the moment.
pub open spec fn answer_hash_input(timestamp: i64) -> Seq<Seq<u8>> {
    seq![ne_bytes_i64(timestamp)]
}

/// The hash that seeds the fortune of a user on a day: `DefaultHasher`
/// over `days` written as an `i32`, then `user_id` written as a `u64`.
pub fn fortune_hash(days: i32, user_id: u64) -> (h: u64)
    ensures
        h == std::hash::DefaultHasher::spec_finish(fortune_hash_input(days, user_id)),
{
    let mut hasher = std::hash::DefaultHasher::new();
    hasher_write_i32(&mut hasher, days);
    hasher_write_u64(&mut hasher, user_id);
    assert(hasher@ =~= fortune_hash_input(days, user_id));
    hasher.finish()
}

/// The hash that seeds the answer to a question asked at `timestamp`:
/// `DefaultHasher` over `timestamp` written as an `i64`.
pub fn answer_hash(timestamp: i64) -> (h: u64)
    ensures
        h == std::hash::DefaultHasher::spec_finish(answer_hash_input(timestamp)),
{
    let mut hasher = std::hash::DefaultHasher::new();
    hasher_write_i64(&mut hasher, timestamp);
    assert(hasher@ =~= answer_hash_input(timestamp));
    hasher.finish()
}

/// The fortune's hash is computed from both the day and the user: two
/// different days, or two different users, never give the hasher the same
/// input, so each user has a fortune of their own for each day.
pub proof fn law_fortune_hash_input_identifies(d1: i32, u1: u64, d2: i32, u2: u64)
    ensures
        fortune_hash_input(d1, u1) == fortune_hash_input(d2, u2) ==> d1 == d2 && u1 == u2,
{
    lemma_ne_bytes_injective();
    if fortune_hash_input(d1, u1) == fortune_hash_input(d2, u2) {
        assert(fortune_hash_input(d1, u1)[0] == ne_bytes_i32(d1));
        assert(fortune_hash_input(d2, u2)[0] == ne_bytes_i32(d2));
        assert(fortune_hash_input(d1, u1)[1] == ne_bytes_u64(u1));
        assert(fortune_hash_input(d2, u2)[1] == ne_bytes_u64(u2));
    }
}

/// The answer's hash is computed from the whole moment: two different
/// moments never give the hasher the same input.
pub proof fn law_answer_hash_input_identifies(t1: i64, t2: i64)
    ensures
        answer_hash_input(t1) == answer_hash_input(t2) ==> t1 == t2,
{
    lemma_ne_bytes_injective();
    if answer_hash_input(t1) == answer_hash_input(t2) {
        assert(answer_hash_input(t1)[0] == ne_bytes_i64(t1));
        assert(answer_hash_input(t2)[0] == ne_bytes_i64(t2));
    }
}

/// The fortune of a user on a day (`days` is the day's number counted from
/// the first of January of year 1): one of the fortunes, picked by a
/// generator seeded with [`fortune_hash`] of the day and the user.
pub fn fortune_for(days: i32, user_id: u64) -> (r: &'static str)
    ensures
        fortune_list().contains(r),
{
    let hash = fortune_hash(days, user_id);
    let list = fortunes();
    pick_with_hash(hash, &list)
}

/// An answer to a question asked at `timestamp` (seconds since the Unix
/// epoch): one of the answers, picked by a generator seeded with
/// [`answer_hash`] of the moment.
pub fn answer_for(timestamp: i64) -> (r: &'static str)
    ensures
        answer_list().contains(r),
{
    let hash = answer_hash(timestamp);
    let list = answers();
    pick_with_hash(hash, &list)
}

} // verus!
